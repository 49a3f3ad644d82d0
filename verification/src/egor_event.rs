use vstd::prelude::*;

verus! {

/// Window lifecycle events that occur between frames.
///
/// Events accumulate between frames and are handed to the frame callback;
/// the list is cleared after each frame completes.
#[derive(Debug, Clone, Copy, PartialEq, Eq, Structural)]
pub enum EgorEvent {
    /// Window gained (`true`) or lost (`false`) focus.
    Focused(bool),
    /// Window was resized; the new size in physical pixels (width, height).
    Resized(u32, u32),
    /// Window close was requested; one final frame runs before the application exits.
    CloseRequested,
}

} // verus!
