use vstd::prelude::*;

verus! {

/// The first message number that the window system leaves to applications (`WM_APP`).
pub const WM_APP: u32 = 0x8000;

/// The message that carries a new state of the window manager to the bar's window.
pub struct UpdateState;

impl UpdateState {
    /// The message number of the state update: the first one left to applications, plus one.
    pub const ID: u32 = WM_APP + 1;
}

} // verus!
