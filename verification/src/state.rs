use vstd::prelude::*;
use crate::geometry::MonitorRect;

verus! {

/// What the bar reads of one workspace of the window manager.
pub struct WorkspaceInfo {
    /// The workspace's name, where it has one.
    pub name: Option<String>,
    /// The workspace holds no window.
    pub is_empty: bool,
    /// The workspace is laid out with the scrolling layout.
    pub scrolling: bool,
    /// How many containers the workspace holds.
    pub container_count: usize,
    /// The index of the focused container.
    pub focused_container: usize,
    /// The handle of the workspace's maximized window, where there is one.
    pub maximized_hwnd: Option<isize>,
    /// The handles of the windows of the workspace's monocle container, where there is one.
    pub monocle_hwnds: Option<Vec<isize>>,
}

/// The workspaces of a monitor, one of them focused.
pub struct WorkspaceRing {
    pub elements: Vec<WorkspaceInfo>,
    pub focused: usize,
}

/// What the bar reads of one monitor.
pub struct MonitorInfo {
    pub id: isize,
    pub name: String,
    pub size: MonitorRect,
    pub workspaces: WorkspaceRing,
}

/// What the bar reads of the window manager's state.
pub struct BarState {
    pub monitors: Vec<MonitorInfo>,
    pub is_paused: bool,
}

/// Which special state the focused workspace's foreground window is in.
#[derive(Clone, Copy, Debug, PartialEq, Eq, Structural)]
pub enum CurrentState {
    Normal,
    Maximized,
    Monocle,
}

impl WorkspaceRing {
    pub open spec fn spec_focused(&self) -> Option<WorkspaceInfo> {
        if self.focused < self.elements@.len() {
            Some(self.elements@[self.focused as int])
        } else {
            None
        }
    }

    pub fn focused_idx(&self) -> (r: usize)
        ensures
            r == self.focused,
    {
        self.focused
    }

    pub fn focused(&self) -> (r: Option<&WorkspaceInfo>)
        ensures
            match r {
                Some(w) => self.spec_focused() == Some(*w),
                None => self.spec_focused() is None,
            },
    {
        if self.focused < self.elements.len() {
            Some(&self.elements[self.focused])
        } else {
            None
        }
    }
}

impl WorkspaceInfo {
    /// A monocle container holding the foreground window wins over a maximized window.
    pub open spec fn spec_current_state(&self, foreground: Option<isize>) -> CurrentState {
        match foreground {
            None => CurrentState::Normal,
            Some(h) => {
                if self.monocle_hwnds matches Some(v) && v@.contains(h) {
                    CurrentState::Monocle
                } else if self.maximized_hwnd == Some(h) {
                    CurrentState::Maximized
                } else {
                    CurrentState::Normal
                }
            },
        }
    }

    /// The state that the workspace's foreground window `foreground` is in.
    pub fn current_state(&self, foreground: Option<isize>) -> (r: CurrentState)
        ensures
            r == self.spec_current_state(foreground),
    {
        let mut current = CurrentState::Normal;
        if let Some(hwnd) = foreground {
            if let Some(window) = self.maximized_hwnd {
                if hwnd == window {
                    current = CurrentState::Maximized;
                }
            }
            if let Some(container) = &self.monocle_hwnds {
                if contains_hwnd(container, hwnd) {
                    current = CurrentState::Monocle;
                }
            }
        }
        current
    }
}

/// Whichever window of the workspace's monocle container is in the foreground, the
/// workspace is in the monocle state, whether or not a maximized window also matches.
pub proof fn lemma_monocle_window_is_monocle(w: WorkspaceInfo, i: int)
    requires
        w.monocle_hwnds is Some,
        0 <= i < w.monocle_hwnds->Some_0@.len(),
    ensures
        w.spec_current_state(Some(w.monocle_hwnds->Some_0@[i])) == CurrentState::Monocle,
{
    let v = w.monocle_hwnds->Some_0@;
    assert(v.contains(v[i]));
}

/// A foreground window outside the monocle container is in the maximized state exactly when it
/// is the workspace's maximized window; with no foreground window the state is normal.
pub proof fn lemma_maximized_or_normal(w: WorkspaceInfo, h: isize)
    requires
        forall|i: int|
            #![trigger w.monocle_hwnds->Some_0@[i]]
            w.monocle_hwnds is Some && 0 <= i < w.monocle_hwnds->Some_0@.len() ==> w.monocle_hwnds->Some_0@[i]
                != h,
    ensures
        w.spec_current_state(Some(h)) == CurrentState::Maximized <==> w.maximized_hwnd == Some(h),
        w.spec_current_state(Some(h)) == CurrentState::Normal <==> w.maximized_hwnd != Some(h),
        w.spec_current_state(None) == CurrentState::Normal,
{
    if w.monocle_hwnds is Some {
        let v = w.monocle_hwnds->Some_0@;
        if v.contains(h) {
            let i = choose|i: int| 0 <= i < v.len() && v[i] == h;
            assert(v[i] != h);
        }
    }
}

/// Whether `hwnds` holds `hwnd`.
pub fn contains_hwnd(hwnds: &Vec<isize>, hwnd: isize) -> (r: bool)
    ensures
        r == hwnds@.contains(hwnd),
{
    let mut i: usize = 0;
    while i < hwnds.len()
        invariant
            i <= hwnds.len(),
            forall|j: int| 0 <= j < i ==> hwnds@[j] != hwnd,
        decreases hwnds.len() - i,
    {
        if hwnds[i] == hwnd {
            assert(hwnds@[i as int] == hwnd);
            return true;
        }
        i = i + 1;
    }
    false
}

} // verus!
