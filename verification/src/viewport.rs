//! The playback viewport: a single rectangle shared between the UI layout
//! pass (one writer) and the playback renderer (one reader).

use std::sync::Arc;
use std::sync::Mutex;
use vstd::prelude::*;

verus! {

/// The sub-rectangle of the window into which video is composited, in
/// logical pixel units. The zero rectangle stands for "no layout pass has
/// run yet".
#[derive(Clone, Copy, Debug, PartialEq, Eq, Structural)]
pub struct ViewportRect {
    pub x: u32,
    pub y: u32,
    pub width: u32,
    pub height: u32,
}

impl ViewportRect {
    /// The rectangle with every field zero.
    pub fn zero() -> (r: ViewportRect)
        ensures
            r == (ViewportRect { x: 0, y: 0, width: 0, height: 0 }),
    {
        ViewportRect { x: 0, y: 0, width: 0, height: 0 }
    }
}

/// Declares std's `Mutex` so the shared cell can stand in a field; its
/// values are opaque here and only touched inside the wrappers below.
#[verifier::external_type_specification]
#[verifier::external_body]
#[verifier::reject_recursive_types(T)]
pub struct ExMutex<T: ?Sized>(Mutex<T>);

/// A handle on the shared viewport rectangle. The lock inside is taken only
/// for the duration of a single read or write, never across a layout pass or
/// a render pass, so one writer and one reader cannot deadlock each other.
pub struct ViewportTracker {
    cell: Arc<Mutex<ViewportRect>>,
}

impl ViewportTracker {
    /// Relies on std's `Mutex::new`; the shared rectangle starts as the zero
    /// rectangle, standing for "no layout pass has run yet".
    #[verifier::external_body]
    pub fn new() -> (t: ViewportTracker) {
        ViewportTracker { cell: Arc::new(Mutex::new(ViewportRect { x: 0, y: 0, width: 0, height: 0 })) }
    }

    /// Relies on std's `Arc::clone`: the new handle shares the same
    /// rectangle cell as `self`.
    #[verifier::external_body]
    pub fn clone_handle(&self) -> (t: ViewportTracker) {
        ViewportTracker { cell: Arc::clone(&self.cell) }
    }

    /// Relies on std's `Mutex::lock`: stores `r` into the shared cell,
    /// holding the lock only for the store itself.
    #[verifier::external_body]
    pub fn store(&self, r: ViewportRect) {
        *self.cell.lock().unwrap() = r;
    }

    /// Relies on std's `Mutex::lock`: reads the rectangle most recently
    /// stored (or the zero rectangle before any store), holding the lock
    /// only for the read itself.
    #[verifier::external_body]
    pub fn load(&self) -> (r: ViewportRect) {
        *self.cell.lock().unwrap()
    }
}

/// The transparent layout-measuring element: its only task is to report the
/// bounds the UI layout pass allotted to it into the shared viewport
/// rectangle.
pub struct PlaybackTracker {
    viewport: ViewportTracker,
}

impl PlaybackTracker {
    /// A reporter writing through the given viewport handle.
    pub fn new(viewport: ViewportTracker) -> (t: PlaybackTracker) {
        PlaybackTracker { viewport }
    }

    /// Called once per UI layout pass with the element's measured bounds;
    /// stores them for the renderer's next draw. The bounds are already in
    /// the coordinate space the renderer expects, so they are stored as
    /// given.
    pub fn record_bounds(&self, bounds: ViewportRect) {
        self.viewport.store(bounds);
    }
}

} // verus!
