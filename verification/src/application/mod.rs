use vstd::prelude::*;
use crate::geometry::{rect_contains, spec_from_rect, monitor_rect_fits, Rect, RectContains, FromRect};
use crate::state::{BarState, MonitorInfo, WorkspaceRing};
use crate::settings::Settings;

pub mod window;
pub mod paint;
pub mod layout;
pub mod handlers;
pub mod fit;
pub mod laws;

use window::Window;

verus! {

/// The command identifier of the "Quit" entry of the bar's context menu.
pub const ID_EXIT: u16 = 1001;

/// Why the bar could not find what a window shows.
#[derive(Clone, Copy, Debug, PartialEq, Eq, Structural)]
pub enum AppError {
    /// No bar window has this handle.
    NoMonitorId { hwnd: isize },
    /// The window manager reports no monitor with this identifier.
    NoMonitor { monitor_id: isize },
    /// The bar has no window.
    NoWindows,
}

/// A bar window to create: for the monitor `monitor_id`, inside the taskbar at index `taskbar`
/// of the taskbars that were found.
#[derive(Clone, Copy, Debug, PartialEq, Eq, Structural)]
pub struct Placement {
    pub monitor_id: isize,
    pub taskbar: usize,
}

/// What a command from the context menu asks for.
#[derive(Debug)]
pub enum CommandAction {
    /// Close these windows, in this order.
    CloseWindows(Vec<isize>),
    /// Leave the message to the default window procedure.
    Default,
}

/// The bar: its windows, the window manager's state that it shows, and how it draws.
pub struct Application {
    pub windows: Vec<Window>,
    pub state: BarState,
    pub settings: Settings,
}

/// `i` is the first index at which `keys` holds `k`.
pub open spec fn is_first_index(keys: Seq<isize>, k: isize, i: int) -> bool {
    &&& 0 <= i < keys.len()
    &&& keys[i] == k
    &&& forall|j: int| 0 <= j < i ==> keys[j] != k
}

/// The first index at which `keys` holds `k`, if it holds it.
pub open spec fn first_index(keys: Seq<isize>, k: isize) -> Option<int> {
    if exists|i: int| is_first_index(keys, k, i) {
        Some(choose|i: int| is_first_index(keys, k, i))
    } else {
        None
    }
}

pub proof fn lemma_first_index_found(keys: Seq<isize>, k: isize, i: int)
    requires
        is_first_index(keys, k, i),
    ensures
        first_index(keys, k) == Some(i),
{
    let c = choose|c: int| is_first_index(keys, k, c);
    assert(is_first_index(keys, k, c));
    if c < i {
        assert(keys[c] != k);
    } else if i < c {
        assert(keys[i] != k);
    }
}

pub proof fn lemma_first_index_absent(keys: Seq<isize>, k: isize)
    requires
        forall|j: int| 0 <= j < keys.len() ==> keys[j] != k,
    ensures
        first_index(keys, k) is None,
{
    if exists|i: int| is_first_index(keys, k, i) {
        let c = choose|c: int| is_first_index(keys, k, c);
        assert(keys[c] != k);
    }
}

/// The handles of the windows, in order.
pub open spec fn window_hwnds(windows: Seq<Window>) -> Seq<isize> {
    windows.map_values(|w: Window| w.hwnd)
}

/// The identifiers of the monitors, in order.
pub open spec fn monitor_ids(monitors: Seq<MonitorInfo>) -> Seq<isize> {
    monitors.map_values(|m: MonitorInfo| m.id)
}

/// The monitor shown by the first window with handle `hwnd`.
pub open spec fn spec_monitor_id(windows: Seq<Window>, hwnd: isize) -> Option<isize> {
    match first_index(window_hwnds(windows), hwnd) {
        Some(i) => Some(windows[i].monitor_id),
        None => None,
    }
}

/// `t` is the first taskbar that lies inside the monitor area `monitor`.
pub open spec fn is_first_taskbar(monitor: Rect, taskbars: Seq<Rect>, t: int) -> bool {
    &&& 0 <= t < taskbars.len()
    &&& rect_contains(monitor, taskbars[t])
    &&& forall|u: int| 0 <= u < t ==> !rect_contains(monitor, taskbars[u])
}

/// The first taskbar that lies inside the monitor area `monitor`, if one does.
pub open spec fn taskbar_for(monitor: Rect, taskbars: Seq<Rect>) -> Option<int> {
    if exists|t: int| is_first_taskbar(monitor, taskbars, t) {
        Some(choose|t: int| is_first_taskbar(monitor, taskbars, t))
    } else {
        None
    }
}

/// One window for each monitor, in the monitors' order, inside the first taskbar that lies
/// within that monitor; none for a monitor within which no taskbar lies.
pub open spec fn spec_placements(monitors: Seq<MonitorInfo>, taskbars: Seq<Rect>) -> Seq<Placement>
    decreases monitors.len(),
{
    if monitors.len() == 0 {
        Seq::empty()
    } else {
        let rest = spec_placements(monitors.drop_last(), taskbars);
        let m = monitors.last();
        match taskbar_for(spec_from_rect(m.size), taskbars) {
            Some(t) => rest.push(Placement { monitor_id: m.id, taskbar: t as usize }),
            None => rest,
        }
    }
}

pub proof fn lemma_taskbar_found(monitor: Rect, taskbars: Seq<Rect>, t: int)
    requires
        is_first_taskbar(monitor, taskbars, t),
    ensures
        taskbar_for(monitor, taskbars) == Some(t),
{
    let c = choose|c: int| is_first_taskbar(monitor, taskbars, c);
    assert(is_first_taskbar(monitor, taskbars, c));
    if c < t {
        assert(!rect_contains(monitor, taskbars[c]));
    } else if t < c {
        assert(!rect_contains(monitor, taskbars[t]));
    }
}

pub proof fn lemma_taskbar_absent(monitor: Rect, taskbars: Seq<Rect>)
    requires
        forall|u: int| 0 <= u < taskbars.len() ==> !rect_contains(monitor, taskbars[u]),
    ensures
        taskbar_for(monitor, taskbars) is None,
{
    if exists|t: int| is_first_taskbar(monitor, taskbars, t) {
        let c = choose|c: int| is_first_taskbar(monitor, taskbars, c);
        assert(!rect_contains(monitor, taskbars[c]));
    }
}

/// The first taskbar that lies inside `area`.
pub fn first_taskbar_in(area: &Rect, taskbars: &Vec<Rect>) -> (r: Option<usize>)
    ensures
        match r {
            Some(t) => taskbar_for(*area, taskbars@) == Some(t as int),
            None => taskbar_for(*area, taskbars@) is None,
        },
{
    let mut t: usize = 0;
    while t < taskbars.len()
        invariant
            t <= taskbars.len(),
            forall|u: int| 0 <= u < t ==> !rect_contains(*area, taskbars@[u]),
        decreases taskbars.len() - t,
    {
        if area.contains(&taskbars[t]) {
            proof {
                lemma_taskbar_found(*area, taskbars@, t as int);
            }
            return Some(t);
        }
        t = t + 1;
    }
    proof {
        lemma_taskbar_absent(*area, taskbars@);
    }
    None
}

/// Every monitor's area fits in `i32`.
pub open spec fn monitors_fit(monitors: Seq<MonitorInfo>) -> bool {
    forall|i: int| 0 <= i < monitors.len() ==> monitor_rect_fits(#[trigger] monitors[i].size)
}

/// Every bar window is placed inside a taskbar that lies within the monitor it shows, and
/// each monitor gets at most one window, in the monitors' order.
pub proof fn lemma_placements_inside(monitors: Seq<MonitorInfo>, taskbars: Seq<Rect>)
    requires
        taskbars.len() <= usize::MAX,
    ensures
        spec_placements(monitors, taskbars).len() <= monitors.len(),
        forall|k: int|
            0 <= k < spec_placements(monitors, taskbars).len() ==> {
                let p = #[trigger] spec_placements(monitors, taskbars)[k];
                &&& p.taskbar < taskbars.len()
                &&& exists|m: int|
                    0 <= m < monitors.len() && monitors[m].id == p.monitor_id && rect_contains(
                        spec_from_rect(monitors[m].size),
                        taskbars[p.taskbar as int],
                    )
            },
    decreases monitors.len(),
{
    if monitors.len() > 0 {
        let rest = monitors.drop_last();
        lemma_placements_inside(rest, taskbars);
        let last = monitors.len() - 1;
        let area = spec_from_rect(monitors.last().size);
        let ps = spec_placements(monitors, taskbars);
        assert forall|k: int| 0 <= k < ps.len() implies {
            let p = #[trigger] ps[k];
            &&& p.taskbar < taskbars.len()
            &&& exists|m: int|
                0 <= m < monitors.len() && monitors[m].id == p.monitor_id && rect_contains(
                    spec_from_rect(monitors[m].size),
                    taskbars[p.taskbar as int],
                )
        } by {
            let rest_ps = spec_placements(rest, taskbars);
            if k < rest_ps.len() {
                assert(ps[k] == rest_ps[k]);
                let p = rest_ps[k];
                let m = choose|m: int|
                    0 <= m < rest.len() && rest[m].id == p.monitor_id && rect_contains(
                        spec_from_rect(rest[m].size),
                        taskbars[p.taskbar as int],
                    );
                assert(monitors[m] == rest[m]);
            } else {
                let c = choose|c: int| is_first_taskbar(area, taskbars, c);
                assert(is_first_taskbar(area, taskbars, c));
                assert(ps[k].taskbar as int == c);
                assert(monitors[last] == monitors.last());
                assert(0 <= last < monitors.len() && monitors[last].id == ps[k].monitor_id
                    && rect_contains(spec_from_rect(monitors[last].size), taskbars[ps[k].taskbar as int]));
            }
        }
    }
}

pub open spec fn is_taskbar_class_name(name: Seq<char>) -> bool {
    name == "Shell_TrayWnd"@ || name == "Shell_SecondaryTrayWnd"@
}

impl Application {
    /// What the window with handle `hwnd` shows: the workspaces of its monitor.
    pub open spec fn spec_workspaces(&self, hwnd: isize) -> Result<WorkspaceRing, AppError> {
        match spec_monitor_id(self.windows@, hwnd) {
            None => Err(AppError::NoMonitorId { hwnd }),
            Some(monitor_id) => match first_index(monitor_ids(self.state.monitors@), monitor_id) {
                None => Err(AppError::NoMonitor { monitor_id }),
                Some(k) => Ok(self.state.monitors@[k].workspaces),
            },
        }
    }

    /// A bar with no window yet, showing `state`, drawing with `settings`.
    pub fn new(state: BarState, settings: Settings) -> (app: Self)
        ensures
            app.windows@ == Seq::<Window>::empty(),
            app.state == state,
            app.settings == settings,
    {
        Application { windows: Vec::new(), state, settings }
    }

    /// Forgets every window with handle `hwnd`, as when the window system destroys it.
    pub fn destroy(&mut self, hwnd: isize)
        ensures
            final(self).windows@ == old(self).windows@.filter(|w: Window| w.hwnd != hwnd),
            final(self).state == old(self).state,
            final(self).settings == old(self).settings,
    {
        let ghost pred = |w: Window| w.hwnd != hwnd;
        let mut kept: Vec<Window> = Vec::new();
        let mut i: usize = 0;
        while i < self.windows.len()
            invariant
                i <= self.windows.len(),
                pred == (|w: Window| w.hwnd != hwnd),
                kept@ == self.windows@.take(i as int).filter(pred),
            decreases self.windows.len() - i,
        {
            let w = self.windows[i];
            proof {
                let next = self.windows@.take(i + 1);
                assert(next.drop_last() =~= self.windows@.take(i as int));
                assert(next.last() == w);
                reveal_with_fuel(Seq::filter, 1);
                assert(next.filter(pred) == if pred(w) {
                    self.windows@.take(i as int).filter(pred).push(w)
                } else {
                    self.windows@.take(i as int).filter(pred)
                });
            }
            if w.hwnd != hwnd {
                kept.push(w);
            }
            i = i + 1;
        }
        assert(self.windows@.take(i as int) =~= self.windows@);
        self.windows = kept;
    }

    /// Records a window about to be created for the monitor `monitor_id`; the window system
    /// gives its handle later.
    pub fn add_window(&mut self, monitor_id: isize)
        ensures
            final(self).windows@ == old(self).windows@.push(Window { hwnd: 0, monitor_id }),
            final(self).state == old(self).state,
            final(self).settings == old(self).settings,
    {
        self.windows.push(Window { hwnd: 0, monitor_id });
    }

    /// Gives the window recorded last the handle `hwnd` that the window system created it with;
    /// says whether there was such a window.
    pub fn attach_hwnd(&mut self, hwnd: isize) -> (attached: bool)
        ensures
            attached == (old(self).windows@.len() > 0),
            attached ==> final(self).windows@ == old(self).windows@.update(
                old(self).windows@.len() - 1,
                Window { hwnd, monitor_id: old(self).windows@.last().monitor_id },
            ),
            !attached ==> final(self).windows@ == old(self).windows@,
            final(self).state == old(self).state,
            final(self).settings == old(self).settings,
    {
        let n = self.windows.len();
        if n > 0 {
            let monitor_id = self.windows[n - 1].monitor_id;
            self.windows.set(n - 1, Window { hwnd, monitor_id });
            true
        } else {
            false
        }
    }

    /// The handle of the first window.
    pub fn get_primary_hwnd(&self) -> (r: Result<isize, AppError>)
        ensures
            self.windows@.len() > 0 ==> r == Ok::<isize, AppError>(self.windows@[0].hwnd),
            self.windows@.len() == 0 ==> r == Err::<isize, AppError>(AppError::NoWindows),
    {
        if self.windows.len() > 0 {
            Ok(self.windows[0].hwnd)
        } else {
            Err(AppError::NoWindows)
        }
    }

    /// The monitor that the window with handle `hwnd` shows.
    pub fn get_monitor_id(&self, hwnd: isize) -> (r: Result<isize, AppError>)
        ensures
            r == match spec_monitor_id(self.windows@, hwnd) {
                Some(id) => Ok::<isize, AppError>(id),
                None => Err(AppError::NoMonitorId { hwnd }),
            },
    {
        let ghost keys = window_hwnds(self.windows@);
        let mut i: usize = 0;
        while i < self.windows.len()
            invariant
                i <= self.windows.len(),
                keys == window_hwnds(self.windows@),
                forall|j: int| 0 <= j < i ==> keys[j] != hwnd,
            decreases self.windows.len() - i,
        {
            if self.windows[i].hwnd == hwnd {
                proof {
                    lemma_first_index_found(keys, hwnd, i as int);
                }
                return Ok(self.windows[i].monitor_id);
            }
            i = i + 1;
        }
        proof {
            lemma_first_index_absent(keys, hwnd);
        }
        Err(AppError::NoMonitorId { hwnd })
    }

    /// The workspaces that the window with handle `hwnd` shows.
    pub fn workspaces(&self, hwnd: isize) -> (r: Result<&WorkspaceRing, AppError>)
        ensures
            match r {
                Ok(ring) => self.spec_workspaces(hwnd) == Ok::<WorkspaceRing, AppError>(*ring),
                Err(e) => self.spec_workspaces(hwnd) == Err::<WorkspaceRing, AppError>(e),
            },
    {
        let monitor_id = match self.get_monitor_id(hwnd) {
            Ok(id) => id,
            Err(e) => return Err(e),
        };
        let ghost keys = monitor_ids(self.state.monitors@);
        let mut k: usize = 0;
        while k < self.state.monitors.len()
            invariant
                k <= self.state.monitors.len(),
                keys == monitor_ids(self.state.monitors@),
                spec_monitor_id(self.windows@, hwnd) == Some(monitor_id),
                forall|j: int| 0 <= j < k ==> keys[j] != monitor_id,
            decreases self.state.monitors.len() - k,
        {
            if self.state.monitors[k].id == monitor_id {
                proof {
                    lemma_first_index_found(keys, monitor_id, k as int);
                    assert(spec_monitor_id(self.windows@, hwnd) == Some(monitor_id));
                    assert(self.spec_workspaces(hwnd) == Ok::<WorkspaceRing, AppError>(
                        self.state.monitors@[k as int].workspaces,
                    ));
                }
                return Ok(&self.state.monitors[k].workspaces);
            }
            k = k + 1;
        }
        proof {
            lemma_first_index_absent(keys, monitor_id);
        }
        Err(AppError::NoMonitor { monitor_id })
    }

    /// Where to create the bar's windows, given the screen rectangles of the taskbars.
    pub fn prepare(&self, taskbars: &Vec<Rect>) -> (placements: Vec<Placement>)
        requires
            monitors_fit(self.state.monitors@),
        ensures
            placements@ == spec_placements(self.state.monitors@, taskbars@),
    {
        let mut placements: Vec<Placement> = Vec::new();
        let mut m: usize = 0;
        while m < self.state.monitors.len()
            invariant
                m <= self.state.monitors.len(),
                monitors_fit(self.state.monitors@),
                placements@ == spec_placements(self.state.monitors@.take(m as int), taskbars@),
            decreases self.state.monitors.len() - m,
        {
            let monitor = &self.state.monitors[m];
            assert(monitor_rect_fits(self.state.monitors@[m as int].size));
            let area = Rect::from_rect(monitor.size);
            let found = first_taskbar_in(&area, taskbars);
            proof {
                let next = self.state.monitors@.take(m + 1);
                assert(next.drop_last() =~= self.state.monitors@.take(m as int));
                assert(next.last() == self.state.monitors@[m as int]);
            }
            match found {
                Some(t) => {
                    placements.push(Placement { monitor_id: monitor.id, taskbar: t });
                },
                None => {},
            }
            m = m + 1;
        }
        assert(self.state.monitors@.take(m as int) =~= self.state.monitors@);
        placements
    }

    /// Whether a window of class `class_name` is a taskbar.
    pub fn is_taskbar_class(class_name: &String) -> (r: bool)
        ensures
            r == is_taskbar_class_name(class_name@),
    {
        let primary = "Shell_TrayWnd".to_string();
        let secondary = "Shell_SecondaryTrayWnd".to_string();
        *class_name == primary || *class_name == secondary
    }

    /// Shows a new state of the window manager; gives the handles of the windows to redraw,
    /// in order.
    pub fn handle_update_state(&mut self, state: BarState) -> (redraw: Vec<isize>)
        ensures
            final(self).state == state,
            final(self).settings == old(self).settings,
            final(self).windows@ == old(self).windows@,
            redraw@ == window_hwnds(old(self).windows@),
    {
        self.state = state;
        let mut redraw: Vec<isize> = Vec::new();
        let mut i: usize = 0;
        while i < self.windows.len()
            invariant
                i <= self.windows.len(),
                redraw@ == window_hwnds(self.windows@).take(i as int),
            decreases self.windows.len() - i,
        {
            redraw.push(self.windows[i].hwnd);
            assert(window_hwnds(self.windows@).take(i + 1) =~= window_hwnds(self.windows@).take(
                i as int,
            ).push(self.windows@[i as int].hwnd));
            i = i + 1;
        }
        assert(window_hwnds(self.windows@).take(i as int) =~= window_hwnds(self.windows@));
        redraw
    }

    /// What a command from the context menu asks for: "Quit" closes every window.
    pub fn handle_command(&self, ctrl_id: u16) -> (a: CommandAction)
        ensures
            ctrl_id == ID_EXIT ==> (a matches CommandAction::CloseWindows(v) && v@ == window_hwnds(
                self.windows@,
            )),
            ctrl_id != ID_EXIT ==> a == CommandAction::Default,
    {
        if ctrl_id == ID_EXIT {
            let mut hwnds: Vec<isize> = Vec::new();
            let mut i: usize = 0;
            while i < self.windows.len()
                invariant
                    i <= self.windows.len(),
                    hwnds@ == window_hwnds(self.windows@).take(i as int),
                decreases self.windows.len() - i,
            {
                hwnds.push(self.windows[i].hwnd);
                assert(window_hwnds(self.windows@).take(i + 1) =~= window_hwnds(self.windows@).take(
                    i as int,
                ).push(self.windows@[i as int].hwnd));
                i = i + 1;
            }
            assert(window_hwnds(self.windows@).take(i as int) =~= window_hwnds(self.windows@));
            CommandAction::CloseWindows(hwnds)
        } else {
            CommandAction::Default
        }
    }
}

} // verus!
