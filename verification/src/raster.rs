//! The rasterizer: a pure function from a rectangle and a buffer geometry
//! to a flat pixel buffer.
//!
//! Every pass rewrites the whole buffer in row-major order. Membership uses
//! strict interior inclusion: a pixel belongs to the rectangle only when it
//! lies strictly between the border rows and columns, so the visible
//! rectangle is `w - 1` by `h - 1` pixels and the border itself is never
//! painted. Interior pixels are opaque white, all others opaque black.

use vstd::prelude::*;
use vstd::arithmetic::div_mod::lemma_fundamental_div_mod_converse;
use vstd::arithmetic::div_mod::lemma_multiply_divide_lt;
use crate::geometry::Rect;
use crate::scene::AppState;
use crate::scene::SharedScene;

verus! {

/// Opaque white, the colour of interior pixels.
pub const PIXEL_WHITE: u32 = 0xFFFFFFFF;
/// Opaque black, the colour of every other pixel.
pub const PIXEL_BLACK: u32 = 0xFF000000;

/// Strict interior inclusion: `(x, y)` lies strictly inside `rect`, with
/// the border rows and columns excluded.
pub open spec fn rect_contains(rect: Rect, x: int, y: int) -> bool {
    x > rect.x && x < rect.x + rect.w && y > rect.y && y < rect.y + rect.h
}

/// The colour the rasterizer gives pixel `(x, y)`.
pub open spec fn pixel_color(rect: Rect, x: int, y: int) -> u32 {
    if rect_contains(rect, x, y) {
        PIXEL_WHITE
    } else {
        PIXEL_BLACK
    }
}

/// Whether pixel `(x, y)` lies strictly inside the rectangle.
pub fn is_coords_in_rect(rect: &Rect, x: u32, y: u32) -> (b: bool)
    ensures
        b == rect_contains(*rect, x as int, y as int),
{
    let xe = x as u64;
    let ye = y as u64;
    xe > rect.x as u64 && xe < rect.x as u64 + rect.w as u64 && ye > rect.y as u64 && ye < rect.y
        as u64 + rect.h as u64
}

proof fn lemma_row_major_index(width: int, height: int, x: int, y: int)
    requires
        0 < width,
        0 <= x < width,
        0 <= y < height,
    ensures
        0 <= y * width + x < width * height,
        (y * width + x) % width == x,
        (y * width + x) / width == y,
{
    assert(0 <= y * width + x < width * height) by (nonlinear_arith)
        requires
            0 < width,
            0 <= x < width,
            0 <= y < height,
    ;
    lemma_fundamental_div_mod_converse(y * width + x, width, y, x);
}

/// Rasterize `rect` into a fresh row-major buffer of `width * height`
/// pixels: white exactly on the strict interior of `rect`, black
/// everywhere else.
pub fn render(rect: Rect, width: u32, height: u32) -> (buf: Vec<u32>)
    requires
        (width as int) * (height as int) <= usize::MAX as int,
    ensures
        buf@.len() == (width as int) * (height as int),
        forall|k: int|
            0 <= k < buf@.len() ==> buf@[k] == pixel_color(
                rect,
                k % (width as int),
                k / (width as int),
            ),
        forall|x: int, y: int|
            0 <= x < width && 0 <= y < height ==> buf@[y * (width as int) + x] == pixel_color(
                rect,
                x,
                y,
            ),
{
    let wu = width as usize;
    let total: usize = wu * (height as usize);
    let mut buf: Vec<u32> = Vec::with_capacity(total);
    let mut i: usize = 0;
    while i < total
        invariant
            total == (width as int) * (height as int),
            wu == width,
            i <= total,
            buf@.len() == i,
            forall|k: int|
                0 <= k < i ==> buf@[k] == pixel_color(rect, k % (width as int), k / (width as int)),
        decreases total - i,
    {
        proof {
            if width == 0 {
                assert((width as int) * (height as int) == 0) by (nonlinear_arith)
                    requires
                        width == 0,
                ;
            }
            lemma_multiply_divide_lt(i as int, width as int, height as int);
        }
        let x = (i % wu) as u32;
        let y = (i / wu) as u32;
        let c = if is_coords_in_rect(&rect, x, y) {
            PIXEL_WHITE
        } else {
            PIXEL_BLACK
        };
        buf.push(c);
        i = i + 1;
    }
    proof {
        assert forall|x: int, y: int|
            0 <= x < width && 0 <= y < height implies buf@[y * (width as int) + x] == pixel_color(
            rect,
            x,
            y,
        ) by {
            lemma_row_major_index(width as int, height as int, x, y);
        }
    }
    buf
}

/// Take a snapshot of the scene and rasterize it.
///
/// Returns the snapshot together with the buffer, which is exactly the
/// rasterization of the snapshot's rectangle.
pub fn draw(scene: &SharedScene, width: u32, height: u32) -> (r: (AppState, Vec<u32>))
    requires
        (width as int) * (height as int) <= usize::MAX as int,
    ensures
        scene.inv(r.0),
        r.1@.len() == (width as int) * (height as int),
        forall|x: int, y: int|
            0 <= x < width && 0 <= y < height ==> r.1@[y * (width as int) + x] == pixel_color(
                r.0.rect,
                x,
                y,
            ),
{
    let snapshot = scene.read();
    let buf = render(snapshot.rect, width, height);
    (snapshot, buf)
}

/// Border exclusivity: a pixel exactly on one of the rectangle's border
/// rows or columns is never white.
pub proof fn lemma_border_never_white(rect: Rect, x: int, y: int)
    requires
        x == rect.x || x == rect.x + rect.w || y == rect.y || y == rect.y + rect.h,
    ensures
        pixel_color(rect, x, y) == PIXEL_BLACK,
{
}

/// Idempotent re-render: two buffers rasterized from the same rectangle
/// and geometry are identical.
pub proof fn lemma_render_deterministic(
    rect: Rect,
    width: u32,
    height: u32,
    first: Seq<u32>,
    second: Seq<u32>,
)
    requires
        first.len() == (width as int) * (height as int),
        second.len() == (width as int) * (height as int),
        forall|k: int|
            0 <= k < first.len() ==> first[k] == pixel_color(
                rect,
                k % (width as int),
                k / (width as int),
            ),
        forall|k: int|
            0 <= k < second.len() ==> second[k] == pixel_color(
                rect,
                k % (width as int),
                k / (width as int),
            ),
    ensures
        first == second,
{
    assert(first =~= second);
}

} // verus!
