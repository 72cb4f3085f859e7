use vstd::prelude::*;

verus! {

/// One bar window: its handle (0 until the window system has created it) and the
/// monitor it shows the workspaces of.
#[derive(Clone, Copy, Debug, PartialEq, Eq, Structural)]
pub struct Window {
    pub hwnd: isize,
    pub monitor_id: isize,
}

} // verus!
