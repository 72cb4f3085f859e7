use vstd::prelude::*;
use super::{monitors_fit, AppError, Application};
use crate::geometry::monitor_rect_fits;
use super::paint::{
    extents_nonneg, height_of, is_client_rect, lemma_row_left_mono, row_left, spec_bar_height,
    spec_indicator, spec_text_padding, TextExtents,
};
use crate::geometry::Rect;
use crate::state::{CurrentState, WorkspaceRing};

verus! {

/// Where the row of workspaces whose labels are `widths` wide ends, when that fits in `i32`.
pub fn row_extent(widths: &Vec<i32>, height: i32) -> (r: Option<i32>)
    requires
        height >= 0,
        forall|i: int| 0 <= i < widths@.len() ==> widths@[i] >= 0,
    ensures
        row_left(widths@, height as int, widths@.len() as int) <= i32::MAX ==> r == Some(
            row_left(widths@, height as int, widths@.len() as int) as i32,
        ),
        row_left(widths@, height as int, widths@.len() as int) > i32::MAX ==> r is None,
{
    let step: i64 = (height / 6) as i64 * 4;
    let n = widths.len();
    let mut sum: i64 = 0;
    let mut i: usize = 0;
    while i < n
        invariant
            i <= n,
            n == widths@.len(),
            height >= 0,
            step == spec_text_padding(height as int) * 2,
            forall|k: int| 0 <= k < widths@.len() ==> widths@[k] >= 0,
            sum == row_left(widths@, height as int, i as int),
            sum <= i32::MAX,
        decreases n - i,
    {
        let next = sum + widths[i] as i64 + step;
        if next > i32::MAX as i64 {
            proof {
                lemma_row_left_mono(widths@, height as int, i + 1, n as int);
            }
            return None;
        }
        sum = next;
        i = i + 1;
    }
    Some(sum as i32)
}

impl Application {
    /// Whether `prepare` may be asked: whether every monitor's area fits in `i32`.
    pub fn prepare_fits(&self) -> (r: bool)
        ensures
            r == monitors_fit(self.state.monitors@),
    {
        let mut i: usize = 0;
        while i < self.state.monitors.len()
            invariant
                i <= self.state.monitors@.len(),
                forall|k: int| 0 <= k < i ==> monitor_rect_fits(#[trigger] self.state.monitors@[k].size),
            decreases self.state.monitors@.len() - i,
        {
            let size = self.state.monitors[i].size;
            let right = size.left as i64 + size.right as i64;
            let bottom = size.top as i64 + size.bottom as i64;
            if right < i32::MIN as i64 || right > i32::MAX as i64 || bottom < i32::MIN as i64 || bottom
                > i32::MAX as i64 {
                return false;
            }
            i = i + 1;
        }
        true
    }

    /// Whether `workspace_at_x` may be asked about the window `hwnd` with these inputs.
    pub fn hit_fits(&self, hwnd: isize, client: &Rect, extents: &TextExtents) -> (r: bool)
        ensures
            r == self.hit_in_range(hwnd, *client, *extents),
    {
        if !(client.left == 0 && client.top == 0 && client.right >= 0 && client.bottom >= 0) {
            return false;
        }
        if !widths_nonneg(extents) {
            return false;
        }
        match self.workspaces(hwnd) {
            Err(_) => true,
            Ok(ring) => {
                if extents.workspaces.len() != ring.elements.len() {
                    return false;
                }
                row_extent(&extents.workspaces, client.bottom - client.top).is_some()
            },
        }
    }

    /// Whether `paint_and_get_width` and `resize_to_fit` may be asked about the window `hwnd`
    /// with these inputs.
    pub fn paint_fits(&self, hwnd: isize, client: &Rect, foreground: Option<isize>, extents: &TextExtents) -> (r:
        bool)
        ensures
            r == self.paint_in_range(hwnd, *client, foreground, *extents),
    {
        if !(client.left == 0 && client.top == 0 && client.right >= 0 && client.bottom >= 0) {
            return false;
        }
        if !widths_nonneg(extents) {
            return false;
        }
        let height = client.bottom - client.top;
        let bar = (height / 6) as i64;
        let tp2 = bar * 4;
        if self.state.is_paused {
            return extents.paused as i64 + tp2 <= i32::MAX as i64;
        }
        let ring: &WorkspaceRing = match self.workspaces(hwnd) {
            Err(_) => return true,
            Ok(ring) => ring,
        };
        if extents.workspaces.len() != ring.elements.len() {
            return false;
        }
        let l0 = match row_extent(&extents.workspaces, height) {
            None => {
                proof {
                    self.lemma_plan_width_at_least_row(hwnd, *client, foreground, *extents);
                }
                return false;
            },
            Some(l) => l as i64,
        };
        proof {
            self.lemma_plan_width_at_least_row(hwnd, *client, foreground, *extents);
            lemma_row_left_mono(extents.workspaces@, height as int, 0, extents.workspaces@.len() as int);
        }
        match ring.focused() {
            None => true,
            Some(cw) => {
                let current = cw.current_state(foreground);
                match current {
                    CurrentState::Normal => {
                        if cw.scrolling && cw.container_count > 1 {
                            let n = cw.container_count;
                            let f = cw.focused_container;
                            if bar * 8 > i32::MAX as i64 || f == usize::MAX || (n >= 3 && f > usize::MAX - 2) {
                                return false;
                            }
                            let c2 = n > 2 || (n == 2 && f == 1);
                            let mut end: i64 = l0 + bar * 2 + 52 + 44;
                            if n >= 3 {
                                end = end + 40;
                            }
                            if c2 {
                                end = end + 44;
                            }
                            assert(end == spec_indicator(
                                self.settings.colors,
                                *client,
                                n as int,
                                f as int,
                                l0 as int,
                            ).1);
                            end <= i32::MAX as i64
                        } else {
                            true
                        }
                    },
                    CurrentState::Maximized => l0 + extents.maximized as i64 + tp2 <= i32::MAX as i64,
                    CurrentState::Monocle => l0 + extents.monocle as i64 + tp2 <= i32::MAX as i64,
                }
            },
        }
    }

    /// The bar is at least as wide as its row of workspaces.
    proof fn lemma_plan_width_at_least_row(
        &self,
        hwnd: isize,
        client: Rect,
        foreground: Option<isize>,
        ext: TextExtents,
    )
        requires
            is_client_rect(client),
            extents_nonneg(ext),
            !self.state.is_paused,
            self.spec_workspaces(hwnd) is Ok,
            ext.workspaces@.len() == self.spec_workspaces(hwnd)->Ok_0.elements@.len(),
        ensures
            self.spec_plan(hwnd, client, foreground, ext) matches Ok(p) && p.1 >= row_left(
                ext.workspaces@,
                height_of(client),
                ext.workspaces@.len() as int,
            ),
    {
        lemma_row_left_mono(ext.workspaces@, height_of(client), 0, ext.workspaces@.len() as int);
    }
}

/// Whether no measured width is negative.
fn widths_nonneg(extents: &TextExtents) -> (r: bool)
    ensures
        r == extents_nonneg(*extents),
{
    if extents.paused < 0 || extents.maximized < 0 || extents.monocle < 0 {
        return false;
    }
    let mut i: usize = 0;
    while i < extents.workspaces.len()
        invariant
            i <= extents.workspaces@.len(),
            forall|k: int| 0 <= k < i ==> extents.workspaces@[k] >= 0,
        decreases extents.workspaces@.len() - i,
    {
        if extents.workspaces[i] < 0 {
            return false;
        }
        i = i + 1;
    }
    true
}

} // verus!
