use vstd::prelude::*;
use super::{is_first_taskbar, spec_placements, AppError, Application, Placement};
use super::layout::lemma_row_ops_index;
use super::paint::{
    height_of, lemma_row_left_mono, row_left, row_ops, DrawOp, Label, TextExtents,
};
use crate::geometry::{rect_contains, spec_from_rect, Rect, Size};
use crate::state::MonitorInfo;

verus! {

impl Application {
    /// Each workspace of the window's monitor is drawn as its label, then its bar: the label
    /// is the workspace's name, or else its position counted from one; the bar is in the
    /// accent colour for the focused workspace only, and otherwise in the empty or the
    /// non-empty colour as the workspace is empty or not.
    pub proof fn lemma_workspace_labels_and_colours(
        &self,
        hwnd: isize,
        client: Rect,
        foreground: Option<isize>,
        ext: TextExtents,
        i: int,
    )
        requires
            self.paint_in_range(hwnd, client, foreground, ext),
            !self.state.is_paused,
            self.spec_workspaces(hwnd) is Ok,
            0 <= i < self.spec_workspaces(hwnd)->Ok_0.elements@.len(),
        ensures
            self.spec_plan(hwnd, client, foreground, ext) is Ok,
            self.spec_plan(hwnd, client, foreground, ext)->Ok_0.0[2 * i + 1] matches DrawOp::RoundBox {
                color,
                ..
            } && color == if i == self.spec_workspaces(hwnd)->Ok_0.focused {
                self.settings.colors.focused
            } else if self.spec_workspaces(hwnd)->Ok_0.elements@[i].is_empty {
                self.settings.colors.empty
            } else {
                self.settings.colors.nonempty
            },
            self.spec_plan(hwnd, client, foreground, ext)->Ok_0.0[2 * i] matches DrawOp::Text { label, .. }
                && label == match self.spec_workspaces(hwnd)->Ok_0.elements@[i].name {
                Some(n) => Label::Name(n),
                None => Label::Number((i + 1) as usize),
            },
    {
        let ring = self.spec_workspaces(hwnd)->Ok_0;
        let n = ring.elements@.len() as int;
        let widths = ext.workspaces@;
        let colors = self.settings.colors;
        let p = self.spec_plan(hwnd, client, foreground, ext)->Ok_0;
        let row = row_ops(colors, client, ring.elements@, ring.focused as int, widths, n);
        lemma_row_ops_index(colors, client, ring.elements@, ring.focused as int, widths, n, i);
        assert(p.0.subrange(0, 2 * n) =~= row);
        assert(p.0[2 * i + 1] == row[2 * i + 1]);
        assert(p.0[2 * i] == row[2 * i]);
    }

    /// The scrolling-layout indicator for `n >= 3` containers, container `f` focused, starts
    /// with a dot exactly when a container lies before the focused one's left neighbour
    /// (`f > 1`), and ends with a dot exactly when one lies after its right neighbour
    /// (`f + 2 < n`); in between it shows the focused container's position counted from one,
    /// in the monocle colour.
    pub proof fn lemma_indicator_dots(&self, hwnd: isize, client: Rect, foreground: Option<isize>, ext: TextExtents)
        requires
            self.paint_in_range(hwnd, client, foreground, ext),
            self.spec_draws_indicator(hwnd, foreground),
        ensures
            self.spec_plan(hwnd, client, foreground, ext) is Ok,
            ({
                let ring = self.spec_workspaces(hwnd)->Ok_0;
                let cw = ring.spec_focused()->Some_0;
                let n = cw.container_count as int;
                let f = cw.focused_container as int;
                let m = ring.elements@.len() as int;
                let ops = self.spec_plan(hwnd, client, foreground, ext)->Ok_0.0;
                &&& n >= 3 ==> ((ops[2 * m + 1] matches DrawOp::Text { label: Label::Dot, .. }) <==> f > 1)
                &&& n >= 3 ==> ((ops.last() matches DrawOp::Text { label: Label::Dot, .. }) <==> f + 2 < n)
                &&& exists|j: int|
                    #![trigger ops[j]]
                    2 * m <= j < ops.len() - 1 && (ops[j] matches DrawOp::RoundBox { color, .. } && color
                        == self.settings.colors.monocle) && (ops[j + 1] matches DrawOp::Text { label, .. }
                        && label == Label::Number((f + 1) as usize))
            }),
    {
        let ring = self.spec_workspaces(hwnd)->Ok_0;
        let cw = ring.spec_focused()->Some_0;
        let n = cw.container_count as int;
        let f = cw.focused_container as int;
        let m = ring.elements@.len() as int;
        let widths = ext.workspaces@;
        let colors = self.settings.colors;
        let p = self.spec_plan(hwnd, client, foreground, ext)->Ok_0;
        let row = row_ops(colors, client, ring.elements@, ring.focused as int, widths, m);
        super::layout::lemma_row_ops_len(colors, client, ring.elements@, ring.focused as int, widths, m);
        let ind = super::paint::spec_indicator(colors, client, n, f, row_left(widths, height_of(client), m));
        assert(p.0 == row + ind.0);
        assert(p.0.len() == 2 * m + ind.0.len());
        assert(forall|k: int| 0 <= k < ind.0.len() ==> p.0[2 * m + k] == ind.0[k]);
        let c2 = n > 2 || (n == 2 && f == 1);
        let l1 = 0int;
        let o1len: int = if n >= 3 { if f > 1 { 2 } else { 1 } } else { 0 };
        let o2len: int = if c2 { if f > 0 { 2 } else { 1 } } else { 0 };
        let j = 2 * m + o1len + o2len;
        assert(p.0[j] matches DrawOp::RoundBox { color, .. } && color == colors.monocle);
        assert(p.0[j + 1] matches DrawOp::Text { label, .. } && label == Label::Number((f + 1) as usize));
    }

    /// Resizing asks for exactly the width of the bar that is drawn: it asks for nothing when
    /// the client area is already that wide, and otherwise for that width at the client area's
    /// height; it fails exactly as laying out the bar does.
    pub proof fn lemma_resize_width_is_plan_width(
        &self,
        hwnd: isize,
        client: Rect,
        foreground: Option<isize>,
        ext: TextExtents,
    )
        requires
            self.paint_in_range(hwnd, client, foreground, ext),
        ensures
            match self.spec_plan(hwnd, client, foreground, ext) {
                Err(e) => self.spec_resize(hwnd, client, foreground, ext) == Err::<Option<Size>, AppError>(e),
                Ok(p) => {
                    &&& self.spec_resize(hwnd, client, foreground, ext) is Ok
                    &&& (self.spec_resize(hwnd, client, foreground, ext) == Ok::<Option<Size>, AppError>(None)
                        <==> client.right - client.left == p.1)
                    &&& (self.spec_resize(hwnd, client, foreground, ext) matches Ok(Some(s)) ==> s.cx == p.1
                        && s.cy == client.bottom - client.top)
                },
            },
    {
        if self.spec_plan(hwnd, client, foreground, ext) is Ok && !self.state.is_paused {
            let ring = self.spec_workspaces(hwnd)->Ok_0;
            lemma_row_left_mono(ext.workspaces@, height_of(client), 0, ring.elements@.len() as int);
        }
    }
}

/// Every monitor within which some taskbar lies gets a window, on the first taskbar that lies
/// within it, whatever the other monitors have.
pub proof fn lemma_every_monitor_with_taskbar_placed(monitors: Seq<MonitorInfo>, taskbars: Seq<Rect>, k: int, t: int)
    requires
        taskbars.len() <= usize::MAX,
        0 <= k < monitors.len(),
        is_first_taskbar(spec_from_rect(monitors[k].size), taskbars, t),
    ensures
        spec_placements(monitors, taskbars).contains(Placement { monitor_id: monitors[k].id, taskbar: t as usize }),
    decreases monitors.len(),
{
    let area = spec_from_rect(monitors.last().size);
    super::lemma_taskbar_found(spec_from_rect(monitors[k].size), taskbars, t);
    if k < monitors.len() - 1 {
        let rest = monitors.drop_last();
        assert(rest[k] == monitors[k]);
        lemma_every_monitor_with_taskbar_placed(rest, taskbars, k, t);
        let rp = spec_placements(rest, taskbars);
        let q = Placement { monitor_id: monitors[k].id, taskbar: t as usize };
        let j = choose|j: int| 0 <= j < rp.len() && rp[j] == q;
        let ps = spec_placements(monitors, taskbars);
        assert(ps[j] == q);
    } else {
        let ps = spec_placements(monitors, taskbars);
        assert(ps.last() == Placement { monitor_id: monitors[k].id, taskbar: t as usize });
        assert(ps.contains(ps.last()));
    }
}

/// A monitor within which no taskbar lies gets no window.
pub proof fn lemma_monitor_without_taskbar_unplaced(monitors: Seq<MonitorInfo>, taskbars: Seq<Rect>)
    ensures
        spec_placements(monitors, taskbars).len() <= monitors.len(),
        spec_placements(monitors, taskbars).len() == monitors.len() ==> forall|k: int|
            0 <= k < monitors.len() ==> exists|t: int|
                0 <= t < taskbars.len() && rect_contains(spec_from_rect(#[trigger] monitors[k].size), taskbars[t]),
    decreases monitors.len(),
{
    if monitors.len() > 0 {
        let rest = monitors.drop_last();
        lemma_monitor_without_taskbar_unplaced(rest, taskbars);
        let area = spec_from_rect(monitors.last().size);
        if spec_placements(monitors, taskbars).len() == monitors.len() {
            assert(super::taskbar_for(area, taskbars) is Some);
            let t = choose|t: int| is_first_taskbar(area, taskbars, t);
            assert(is_first_taskbar(area, taskbars, t));
            assert forall|k: int| 0 <= k < monitors.len() implies exists|t: int|
                0 <= t < taskbars.len() && rect_contains(spec_from_rect(#[trigger] monitors[k].size), taskbars[t]) by {
                if k < monitors.len() - 1 {
                    assert(rest[k] == monitors[k]);
                } else {
                    assert(monitors[k] == monitors.last());
                }
            }
        }
    }
}

} // verus!
