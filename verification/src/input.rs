//! Input dispatch: translating pointer and keyboard events into geometry
//! updates.
//!
//! Each event is handled independently (no persistent dispatcher state).
//! Pointer motion positions the rectangle absolutely; the four directional
//! key codes move it by a fixed step on key release. Coordinate arithmetic
//! wraps around at the `u32` boundary: moving left or up from a coordinate
//! below the step size wraps to a very large value, which preserves the
//! reference behaviour rather than clamping at zero.

use vstd::prelude::*;
use crate::geometry::Rect;

verus! {

/// Key code for the up arrow.
pub const KEY_UP: u32 = 103;
/// Key code for the down arrow.
pub const KEY_DOWN: u32 = 108;
/// Key code for the left arrow.
pub const KEY_LEFT: u32 = 105;
/// Key code for the right arrow.
pub const KEY_RIGHT: u32 = 106;
/// How many pixels one directional key release moves the rectangle.
pub const MOVE_STEP: u32 = 5;

/// Whether a key is being pressed or released.
#[derive(Clone, Copy, PartialEq, Eq, Structural, Debug)]
pub enum KeyState {
    Pressed,
    Released,
}

/// Whether a pointer button is being pressed or released.
#[derive(Clone, Copy, PartialEq, Eq, Structural, Debug)]
pub enum ButtonState {
    Pressed,
    Released,
}

/// One input event delivered by the presentation boundary.
///
/// Pointer button, enter and leave events are observable only: they never
/// change the geometry.
#[derive(Clone, Copy, PartialEq, Eq, Structural, Debug)]
pub enum InputEvent {
    PointerMotion { x: u32, y: u32 },
    PointerButton { code: u32, state: ButtonState },
    PointerEnter,
    PointerLeave,
    Key { code: u32, state: KeyState },
}

/// `v + MOVE_STEP` with wrap-around at the `u32` boundary.
pub open spec fn coord_plus_step(v: u32) -> u32 {
    if v + MOVE_STEP <= u32::MAX {
        (v + MOVE_STEP) as u32
    } else {
        (v + MOVE_STEP - 0x1_0000_0000) as u32
    }
}

/// `v - MOVE_STEP` with wrap-around at the `u32` boundary.
pub open spec fn coord_minus_step(v: u32) -> u32 {
    if v >= MOVE_STEP {
        (v - MOVE_STEP) as u32
    } else {
        (v - MOVE_STEP + 0x1_0000_0000) as u32
    }
}

/// The geometry update an event performs, as a pure function on the
/// rectangle. Width and height are never changed; only a key release on one
/// of the four directional codes, or a pointer motion, moves the rectangle.
pub open spec fn apply_event_spec(r: Rect, ev: InputEvent) -> Rect {
    match ev {
        InputEvent::PointerMotion { x, y } => Rect { x, y, w: r.w, h: r.h },
        InputEvent::Key { code, state: KeyState::Released } => {
            if code == KEY_UP {
                Rect { x: r.x, y: coord_minus_step(r.y), w: r.w, h: r.h }
            } else if code == KEY_DOWN {
                Rect { x: r.x, y: coord_plus_step(r.y), w: r.w, h: r.h }
            } else if code == KEY_LEFT {
                Rect { x: coord_minus_step(r.x), y: r.y, w: r.w, h: r.h }
            } else if code == KEY_RIGHT {
                Rect { x: coord_plus_step(r.x), y: r.y, w: r.w, h: r.h }
            } else {
                r
            }
        },
        _ => r,
    }
}

fn add_step_wrapping(v: u32) -> (out: u32)
    ensures
        out == coord_plus_step(v),
{
    if v <= u32::MAX - MOVE_STEP {
        v + MOVE_STEP
    } else {
        ((v as u64) + (MOVE_STEP as u64) - 0x1_0000_0000u64) as u32
    }
}

fn sub_step_wrapping(v: u32) -> (out: u32)
    ensures
        out == coord_minus_step(v),
{
    if v >= MOVE_STEP {
        v - MOVE_STEP
    } else {
        ((v as u64) + 0x1_0000_0000u64 - (MOVE_STEP as u64)) as u32
    }
}

/// Apply one input event to a rectangle.
pub fn apply_event(r: Rect, ev: InputEvent) -> (out: Rect)
    ensures
        out == apply_event_spec(r, ev),
        out.w == r.w,
        out.h == r.h,
{
    match ev {
        InputEvent::PointerMotion { x, y } => Rect { x, y, w: r.w, h: r.h },
        InputEvent::Key { code, state: KeyState::Released } => {
            if code == KEY_UP {
                Rect { x: r.x, y: sub_step_wrapping(r.y), w: r.w, h: r.h }
            } else if code == KEY_DOWN {
                Rect { x: r.x, y: add_step_wrapping(r.y), w: r.w, h: r.h }
            } else if code == KEY_LEFT {
                Rect { x: sub_step_wrapping(r.x), y: r.y, w: r.w, h: r.h }
            } else if code == KEY_RIGHT {
                Rect { x: add_step_wrapping(r.x), y: r.y, w: r.w, h: r.h }
            } else {
                r
            }
        },
        _ => r,
    }
}

/// An event never changes the rectangle's extents, only its position.
pub proof fn lemma_event_preserves_extents(r: Rect, ev: InputEvent)
    ensures
        apply_event_spec(r, ev).w == r.w,
        apply_event_spec(r, ev).h == r.h,
{
}

} // verus!
