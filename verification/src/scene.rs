//! The shared scene: the single source of truth for the rectangle's
//! geometry, protected by a reader/writer lock.
//!
//! Many readers may take a snapshot concurrently; a writer has exclusive
//! access while it applies an update. The lock's invariant pins the
//! rectangle's extents to their construction-time values, so every snapshot
//! a reader observes is a complete, well-formed rectangle with those
//! extents: no torn or half-written geometry is ever visible.

use vstd::prelude::*;
use vstd::rwlock::RwLock;
use vstd::rwlock::RwLockPredicate;
use crate::geometry::Rect;
use crate::input::InputEvent;
use crate::input::apply_event;
use crate::input::apply_event_spec;

verus! {

/// Default x position of the rectangle at startup.
pub const DEFAULT_RECT_X: u32 = 0;
/// Default y position of the rectangle at startup.
pub const DEFAULT_RECT_Y: u32 = 0;
/// Default width of the rectangle at startup.
pub const DEFAULT_RECT_W: u32 = 50;
/// Default height of the rectangle at startup.
pub const DEFAULT_RECT_H: u32 = 50;

/// The application state the scene protects: exactly one rectangle.
#[derive(Clone, Copy, PartialEq, Eq, Structural, Debug)]
pub struct AppState {
    pub rect: Rect,
}

/// The lock invariant of a scene: the stored rectangle is well formed and
/// keeps the extents the scene was constructed with.
pub struct ScenePred {
    pub w: u32,
    pub h: u32,
}

impl RwLockPredicate<AppState> for ScenePred {
    open spec fn inv(self, s: AppState) -> bool {
        s.rect.w == self.w && s.rect.h == self.h && s.rect.well_formed()
    }
}

/// Shared handle to the scene state. Readers call [`SharedScene::read`];
/// the input dispatcher mutates through [`SharedScene::dispatch`].
pub struct SharedScene {
    lock: RwLock<AppState, ScenePred>,
}

impl SharedScene {
    /// Width every stored rectangle keeps, fixed at construction.
    pub closed spec fn width(self) -> u32 {
        self.lock.pred().w
    }

    /// Height every stored rectangle keeps, fixed at construction.
    pub closed spec fn height(self) -> u32 {
        self.lock.pred().h
    }

    /// Whether `s` is a state this scene can hold.
    pub closed spec fn inv(self, s: AppState) -> bool {
        self.lock.inv(s)
    }

    /// Every state the scene can hold is a complete, well-formed rectangle
    /// with the construction-time extents: a reader can never observe torn
    /// geometry.
    pub proof fn lemma_inv_shape(self, s: AppState)
        requires
            self.inv(s),
        ensures
            s.rect.well_formed(),
            s.rect.w == self.width(),
            s.rect.h == self.height(),
    {
    }

    /// Create a scene holding the given rectangle.
    pub fn with_rect(rect: Rect) -> (scene: SharedScene)
        requires
            rect.well_formed(),
        ensures
            scene.width() == rect.w,
            scene.height() == rect.h,
    {
        let lock = RwLock::new(
            AppState { rect },
            Ghost(ScenePred { w: rect.w, h: rect.h }),
        );
        SharedScene { lock }
    }

    /// Take a snapshot of the current state.
    ///
    /// Many readers may do this concurrently; it blocks only while a write
    /// is in progress. The snapshot is whatever complete state the most
    /// recent finished write left behind.
    pub fn read(&self) -> (s: AppState)
        ensures
            self.inv(s),
    {
        let handle = self.lock.acquire_read();
        let s = *handle.borrow();
        handle.release_read();
        s
    }

    /// Apply one input event to the scene under the exclusive write lock.
    ///
    /// Returns the state found under the lock and the state stored back,
    /// which is exactly the event applied to the found state.
    pub fn dispatch(&self, ev: InputEvent) -> (r: (AppState, AppState))
        ensures
            self.inv(r.0),
            self.inv(r.1),
            r.1.rect == apply_event_spec(r.0.rect, ev),
    {
        let (prev, write_handle) = self.lock.acquire_write();
        let next = AppState { rect: apply_event(prev.rect, ev) };
        write_handle.release_write(next);
        (prev, next)
    }
}

impl AppState {
    /// Create the scene the client starts with: the default rectangle at
    /// the origin, behind a fresh reader/writer lock.
    pub fn new() -> (scene: SharedScene)
        ensures
            scene.width() == DEFAULT_RECT_W,
            scene.height() == DEFAULT_RECT_H,
    {
        SharedScene::with_rect(
            Rect::new(DEFAULT_RECT_X, DEFAULT_RECT_Y, DEFAULT_RECT_W, DEFAULT_RECT_H),
        )
    }
}

} // verus!
