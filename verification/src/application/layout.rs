use vstd::prelude::*;
use super::{AppError, Application};
use super::paint::{
    extents_nonneg, height_of, is_client_rect, lemma_row_left_mono, row_left, row_ops, spec_bar_height,
    spec_h_padding, spec_text_padding, spec_ws_ops, DrawOp, TextExtents,
};
use crate::geometry::{Rect, Size};
use crate::settings::ColorSettings;
use crate::state::{WorkspaceInfo, WorkspaceRing};

verus! {

/// The point `x` lies on the bar under workspace `i`, as far as it reaches sideways.
pub open spec fn ws_hit(client: Rect, widths: Seq<i32>, focused: int, i: int, x: int) -> bool {
    let h = height_of(client);
    let l = row_left(widths, h, i);
    let hp = spec_h_padding(h, focused == i);
    l + hp <= x <= l + widths[i] + spec_text_padding(h) * 2 - hp
}

/// `i` is the first of the `n` workspaces whose bar `x` lies on.
pub open spec fn is_first_hit(client: Rect, widths: Seq<i32>, focused: int, n: int, x: int, i: int) -> bool {
    &&& 0 <= i < n
    &&& ws_hit(client, widths, focused, i, x)
    &&& forall|j: int| 0 <= j < i ==> !ws_hit(client, widths, focused, j, x)
}

/// The first of the `n` workspaces whose bar `x` lies on, if one does.
pub open spec fn first_hit(client: Rect, widths: Seq<i32>, focused: int, n: int, x: int) -> Option<int> {
    if exists|i: int| is_first_hit(client, widths, focused, n, x, i) {
        Some(choose|i: int| is_first_hit(client, widths, focused, n, x, i))
    } else {
        None
    }
}

pub proof fn lemma_first_hit_found(client: Rect, widths: Seq<i32>, focused: int, n: int, x: int, i: int)
    requires
        is_first_hit(client, widths, focused, n, x, i),
    ensures
        first_hit(client, widths, focused, n, x) == Some(i),
{
    let c = choose|c: int| is_first_hit(client, widths, focused, n, x, c);
    assert(is_first_hit(client, widths, focused, n, x, c));
    if c < i {
        assert(!ws_hit(client, widths, focused, c, x));
    } else if i < c {
        assert(!ws_hit(client, widths, focused, i, x));
    }
}

pub proof fn lemma_first_hit_absent(client: Rect, widths: Seq<i32>, focused: int, n: int, x: int)
    requires
        forall|j: int| 0 <= j < n ==> !ws_hit(client, widths, focused, j, x),
    ensures
        first_hit(client, widths, focused, n, x) is None,
{
    if exists|i: int| is_first_hit(client, widths, focused, n, x, i) {
        let c = choose|c: int| is_first_hit(client, widths, focused, n, x, c);
        assert(!ws_hit(client, widths, focused, c, x));
    }
}

impl Application {
    /// Which workspace of the window `hwnd` a click at `x` falls on: the first whose bar
    /// reaches `x` sideways.
    pub open spec fn spec_workspace_at_x(
        &self,
        hwnd: isize,
        x: i32,
        client: Rect,
        ext: TextExtents,
    ) -> Result<Option<usize>, AppError> {
        match self.spec_workspaces(hwnd) {
            Err(e) => Err(e),
            Ok(ring) => Ok(
                match first_hit(client, ext.workspaces@, ring.focused as int, ring.elements@.len() as int, x as int) {
                    Some(i) => Some(i as usize),
                    None => None,
                },
            ),
        }
    }

    /// The inputs on which finding the clicked workspace stays within the machine's integers:
    /// a client area as the window system gives it, a measured width for each workspace shown,
    /// and a row of workspaces no wider than `i32::MAX`.
    pub open spec fn hit_in_range(&self, hwnd: isize, client: Rect, ext: TextExtents) -> bool {
        &&& is_client_rect(client)
        &&& extents_nonneg(ext)
        &&& self.spec_workspaces(hwnd) is Ok ==> {
            &&& ext.workspaces@.len() == self.spec_workspaces(hwnd)->Ok_0.elements@.len()
            &&& row_left(ext.workspaces@, height_of(client), ext.workspaces@.len() as int) <= i32::MAX
        }
    }

    /// The workspace of the window `hwnd` under a click at `x`, on the client area `client`,
    /// with the workspaces' labels measuring `extents`.
    pub fn workspace_at_x(&self, hwnd: isize, x: i32, client: &Rect, extents: &TextExtents) -> (r: Result<
        Option<usize>,
        AppError,
    >)
        requires
            self.hit_in_range(hwnd, *client, *extents),
        ensures
            r == self.spec_workspace_at_x(hwnd, x, *client, *extents),
    {
        let height = client.bottom - client.top;
        let workspaces = match self.workspaces(hwnd) {
            Ok(w) => w,
            Err(e) => return Err(e),
        };
        let focused_idx = workspaces.focused_idx();
        let text_padding = self.get_text_padding(height);
        let n = workspaces.elements.len();
        let ghost widths = extents.workspaces@;
        let mut left: i32 = 0;
        let mut idx: usize = 0;
        while idx < n
            invariant
                idx <= n,
                n == workspaces.elements@.len(),
                self.spec_workspaces(hwnd) == Ok::<WorkspaceRing, AppError>(*workspaces),
                n == widths.len(),
                widths == extents.workspaces@,
                focused_idx == workspaces.focused,
                height == height_of(*client),
                text_padding == spec_text_padding(height as int),
                is_client_rect(*client),
                extents_nonneg(*extents),
                row_left(widths, height as int, n as int) <= i32::MAX,
                left == row_left(widths, height as int, idx as int),
                forall|j: int| 0 <= j < idx ==> !ws_hit(*client, widths, focused_idx as int, j, x as int),
            decreases n - idx,
        {
            proof {
                lemma_row_left_mono(widths, height as int, 0, idx as int);
                lemma_row_left_mono(widths, height as int, idx + 1, n as int);
            }
            let text_width = extents.workspaces[idx];
            let h_padding = self.get_h_padding(height, focused_idx == idx);
            let rect_left = left + h_padding;
            let rect_right = left + text_width + text_padding * 2 - h_padding;
            if x >= rect_left && x <= rect_right {
                proof {
                    lemma_first_hit_found(*client, widths, focused_idx as int, n as int, x as int, idx as int);
                }
                return Ok(Some(idx));
            }
            left = left + text_width + text_padding * 2;
            idx = idx + 1;
        }
        proof {
            lemma_first_hit_absent(*client, widths, focused_idx as int, n as int, x as int);
        }
        Ok(None)
    }

    /// How a window's size must change to fit the bar: not at all when its client area is
    /// already as wide as the bar, else to the bar's width at the same height.
    pub open spec fn spec_resize(
        &self,
        hwnd: isize,
        client: Rect,
        foreground: Option<isize>,
        ext: TextExtents,
    ) -> Result<Option<Size>, AppError> {
        match self.spec_plan(hwnd, client, foreground, ext) {
            Err(e) => Err(e),
            Ok(p) => Ok(
                if client.right - client.left == p.1 {
                    None
                } else {
                    Some(Size { cx: p.1 as i32, cy: (client.bottom - client.top) as i32 })
                },
            ),
        }
    }

    /// The size the window `hwnd`, whose client area is `client`, must take to fit the bar;
    /// `None` when it already fits.
    pub fn resize_to_fit(
        &self,
        hwnd: isize,
        client: &Rect,
        foreground: Option<isize>,
        extents: &TextExtents,
    ) -> (r: Result<Option<Size>, AppError>)
        requires
            self.paint_in_range(hwnd, *client, foreground, *extents),
        ensures
            r == self.spec_resize(hwnd, *client, foreground, *extents),
    {
        let total_width = match self.paint_and_get_width(hwnd, client, false, foreground, extents) {
            Ok(plan) => plan.width,
            Err(e) => return Err(e),
        };
        if client.right - client.left == total_width {
            return Ok(None);
        }
        Ok(Some(Size { cx: total_width, cy: client.bottom - client.top }))
    }
}

/// Under a window at least twelve pixels high, no point lies on the bars of two different
/// workspaces, so a click falls on at most one of them.
pub proof fn lemma_bars_disjoint(client: Rect, widths: Seq<i32>, focused: int, i: int, j: int, x: int)
    requires
        is_client_rect(client),
        forall|k: int| 0 <= k < widths.len() ==> widths[k] >= 0,
        0 <= i < j < widths.len(),
        spec_bar_height(height_of(client)) >= 2,
    ensures
        !(ws_hit(client, widths, focused, i, x) && ws_hit(client, widths, focused, j, x)),
{
    lemma_row_left_mono(widths, height_of(client), i + 1, j);
}

/// What drawing the first `n` workspaces takes holds two steps for each, in order.
pub proof fn lemma_row_ops_index(
    colors: ColorSettings,
    client: Rect,
    wss: Seq<WorkspaceInfo>,
    focused: int,
    widths: Seq<i32>,
    n: int,
    i: int,
)
    requires
        0 <= i < n,
    ensures
        row_ops(colors, client, wss, focused, widths, n).len() == 2 * n,
        row_ops(colors, client, wss, focused, widths, n)[2 * i] == spec_ws_ops(
            colors,
            client,
            wss[i],
            i,
            focused,
            widths[i] as int,
            row_left(widths, height_of(client), i),
        )[0],
        row_ops(colors, client, wss, focused, widths, n)[2 * i + 1] == spec_ws_ops(
            colors,
            client,
            wss[i],
            i,
            focused,
            widths[i] as int,
            row_left(widths, height_of(client), i),
        )[1],
    decreases n,
{
    lemma_row_ops_len(colors, client, wss, focused, widths, n - 1);
    if i < n - 1 {
        lemma_row_ops_index(colors, client, wss, focused, widths, n - 1, i);
    }
}

/// Drawing `n` workspaces takes two steps for each.
pub proof fn lemma_row_ops_len(
    colors: ColorSettings,
    client: Rect,
    wss: Seq<WorkspaceInfo>,
    focused: int,
    widths: Seq<i32>,
    n: int,
)
    requires
        n >= 0,
    ensures
        row_ops(colors, client, wss, focused, widths, n).len() == 2 * n,
    decreases n,
{
    if n > 0 {
        lemma_row_ops_len(colors, client, wss, focused, widths, n - 1);
    }
}

/// The bar that drawing step `2 * i + 1` fills reaches `x` sideways.
pub open spec fn drawn_bar_spans(ops: Seq<DrawOp>, i: int, x: int) -> bool {
    ops[2 * i + 1] matches DrawOp::RoundBox { rect, .. } && rect.left <= x <= rect.right
}

impl Application {
    /// The bar that the window draws under workspace `i` reaches `x` exactly when a click at
    /// `x` is taken to fall on workspace `i`'s bar.
    proof fn lemma_drawn_bar_is_hit(
        &self,
        hwnd: isize,
        x: i32,
        client: Rect,
        foreground: Option<isize>,
        ext: TextExtents,
        i: int,
    )
        requires
            self.paint_in_range(hwnd, client, foreground, ext),
            !self.state.is_paused,
            self.spec_workspaces(hwnd) is Ok,
            0 <= i < ext.workspaces@.len(),
        ensures
            self.spec_plan(hwnd, client, foreground, ext) is Ok,
            drawn_bar_spans(self.spec_plan(hwnd, client, foreground, ext)->Ok_0.0, i, x as int) == ws_hit(
                client,
                ext.workspaces@,
                self.spec_workspaces(hwnd)->Ok_0.focused as int,
                i,
                x as int,
            ),
    {
        let ring = self.spec_workspaces(hwnd)->Ok_0;
        let n = ring.elements@.len() as int;
        let widths = ext.workspaces@;
        let h = height_of(client);
        let colors = self.settings.colors;
        let p = self.spec_plan(hwnd, client, foreground, ext)->Ok_0;
        let row = row_ops(colors, client, ring.elements@, ring.focused as int, widths, n);
        lemma_row_left_mono(widths, h, 0, n);
        lemma_row_left_mono(widths, h, i + 1, n);
        lemma_row_left_mono(widths, h, 0, i);
        lemma_row_ops_index(colors, client, ring.elements@, ring.focused as int, widths, n, i);
        assert(p.1 >= row_left(widths, h, n));
        assert(p.0.subrange(0, 2 * n) =~= row);
        assert(p.0[2 * i + 1] == row[2 * i + 1]);
    }

    /// A click lands on the workspace whose drawn bar it falls on: the click at `x` is taken to
    /// fall on workspace `i` exactly when the bar drawn under workspace `i` reaches `x` and no
    /// bar drawn before it does, and on no workspace exactly when no drawn bar reaches `x`.
    pub proof fn lemma_click_matches_drawing(
        &self,
        hwnd: isize,
        x: i32,
        client: Rect,
        foreground: Option<isize>,
        ext: TextExtents,
    )
        requires
            self.paint_in_range(hwnd, client, foreground, ext),
            !self.state.is_paused,
        ensures
            self.spec_plan(hwnd, client, foreground, ext) matches Ok(p) ==> {
                let n = ext.workspaces@.len() as int;
                &&& self.spec_workspace_at_x(hwnd, x, client, ext) is Ok
                &&& forall|i: int|
                    0 <= i < n ==> (self.spec_workspace_at_x(hwnd, x, client, ext) == Ok::<
                        Option<usize>,
                        AppError,
                    >(Some(i as usize)) <==> (drawn_bar_spans(p.0, i, x as int) && forall|j: int|
                        0 <= j < i ==> !drawn_bar_spans(p.0, j, x as int)))
                &&& (self.spec_workspace_at_x(hwnd, x, client, ext) == Ok::<Option<usize>, AppError>(None)
                    <==> forall|i: int| 0 <= i < n ==> !drawn_bar_spans(p.0, i, x as int))
            },
    {
        if self.spec_workspaces(hwnd) is Ok {
            let ring = self.spec_workspaces(hwnd)->Ok_0;
            let n = ext.workspaces@.len() as int;
            let widths = ext.workspaces@;
            let f = ring.focused as int;
            let p = self.spec_plan(hwnd, client, foreground, ext)->Ok_0;
            assert forall|i: int|
                #![trigger drawn_bar_spans(p.0, i, x as int)]
                #![trigger ws_hit(client, widths, f, i, x as int)]
                0 <= i < n implies drawn_bar_spans(p.0, i, x as int) == ws_hit(
                client,
                widths,
                f,
                i,
                x as int,
            ) by {
                self.lemma_drawn_bar_is_hit(hwnd, x, client, foreground, ext, i);
            }
            assert(n <= usize::MAX) by {
                assert(ext.workspaces@.len() == ext.workspaces.len());
            }
            assert forall|i: int| 0 <= i < n implies (self.spec_workspace_at_x(hwnd, x, client, ext) == Ok::<
                Option<usize>,
                AppError,
            >(Some(i as usize)) <==> is_first_hit(client, widths, f, n, x as int, i)) by {
                if is_first_hit(client, widths, f, n, x as int, i) {
                    lemma_first_hit_found(client, widths, f, n, x as int, i);
                }
                if exists|c: int| is_first_hit(client, widths, f, n, x as int, c) {
                    let c = choose|c: int| is_first_hit(client, widths, f, n, x as int, c);
                    assert(is_first_hit(client, widths, f, n, x as int, c));
                    assert(first_hit(client, widths, f, n, x as int) == Some(c));
                    assert(0 <= c < n);
                    if c != i {
                        assert((c as usize) != (i as usize));
                    }
                }
            }
            if forall|i: int| 0 <= i < n ==> !ws_hit(client, widths, f, i, x as int) {
                lemma_first_hit_absent(client, widths, f, n, x as int);
            } else {
                let k = choose|k: int| 0 <= k < n && ws_hit(client, widths, f, k, x as int);
                lemma_first_hit_exists(client, widths, f, n, x as int, k);
            }
            assert(self.spec_workspace_at_x(hwnd, x, client, ext) is Ok);
            assert forall|i: int| 0 <= i < n implies (self.spec_workspace_at_x(hwnd, x, client, ext) == Ok::<
                Option<usize>,
                AppError,
            >(Some(i as usize)) <==> (drawn_bar_spans(p.0, i, x as int) && forall|j: int|
                0 <= j < i ==> !drawn_bar_spans(p.0, j, x as int))) by {
                assert(is_first_hit(client, widths, f, n, x as int, i) <==> (ws_hit(client, widths, f, i, x as int)
                    && forall|j: int| 0 <= j < i ==> !ws_hit(client, widths, f, j, x as int)));
            }
            assert((self.spec_workspace_at_x(hwnd, x, client, ext) == Ok::<Option<usize>, AppError>(None))
                <==> forall|i: int| 0 <= i < n ==> !drawn_bar_spans(p.0, i, x as int));
        }
    }
}

/// Where some workspace's bar reaches `x`, a first one does.
pub proof fn lemma_first_hit_exists(client: Rect, widths: Seq<i32>, focused: int, n: int, x: int, k: int)
    requires
        0 <= k < n,
        ws_hit(client, widths, focused, k, x),
    ensures
        first_hit(client, widths, focused, n, x) is Some,
    decreases k,
{
    if forall|j: int| 0 <= j < k ==> !ws_hit(client, widths, focused, j, x) {
        assert(is_first_hit(client, widths, focused, n, x, k));
    } else {
        let j = choose|j: int| 0 <= j < k && ws_hit(client, widths, focused, j, x);
        lemma_first_hit_exists(client, widths, focused, n, x, j);
    }
}

/// Two client areas with the same top and bottom edges get the same drawing steps for the
/// workspaces.
pub proof fn lemma_row_ops_ignores_width(
    colors: ColorSettings,
    a: Rect,
    b: Rect,
    wss: Seq<WorkspaceInfo>,
    focused: int,
    widths: Seq<i32>,
    n: int,
)
    requires
        a.top == b.top,
        a.bottom == b.bottom,
    ensures
        row_ops(colors, a, wss, focused, widths, n) == row_ops(colors, b, wss, focused, widths, n),
    decreases n,
{
    if n > 0 {
        lemma_row_ops_ignores_width(colors, a, b, wss, focused, widths, n - 1);
    }
}

impl Application {
    /// What the bar draws depends on the height of the client area, not on its width.
    pub proof fn lemma_plan_ignores_width(
        &self,
        hwnd: isize,
        a: Rect,
        b: Rect,
        foreground: Option<isize>,
        ext: TextExtents,
    )
        requires
            a.top == b.top,
            a.bottom == b.bottom,
        ensures
            self.spec_plan(hwnd, a, foreground, ext) == self.spec_plan(hwnd, b, foreground, ext),
    {
        if !self.state.is_paused && self.spec_workspaces(hwnd) is Ok {
            let ring = self.spec_workspaces(hwnd)->Ok_0;
            lemma_row_ops_ignores_width(
                self.settings.colors,
                a,
                b,
                ring.elements@,
                ring.focused as int,
                ext.workspaces@,
                ring.elements@.len() as int,
            );
        }
    }

    /// Resizing a window to fit the bar leaves nothing more to resize: once the client area
    /// takes the size that `resize_to_fit` asks for, it asks for no change.
    pub proof fn lemma_resize_settles(
        &self,
        hwnd: isize,
        client: Rect,
        foreground: Option<isize>,
        ext: TextExtents,
    )
        requires
            self.paint_in_range(hwnd, client, foreground, ext),
        ensures
            self.spec_resize(hwnd, client, foreground, ext) matches Ok(Some(size)) ==> {
                let fitted = Rect {
                    left: client.left,
                    top: client.top,
                    right: size.cx,
                    bottom: size.cy,
                };
                &&& self.paint_in_range(hwnd, fitted, foreground, ext)
                &&& self.spec_resize(hwnd, fitted, foreground, ext) == Ok::<Option<Size>, AppError>(None)
            },
    {
        if self.spec_resize(hwnd, client, foreground, ext) matches Ok(Some(_)) {
            let size = self.spec_resize(hwnd, client, foreground, ext)->Ok_0->Some_0;
            let fitted = Rect { left: client.left, top: client.top, right: size.cx, bottom: size.cy };
            let p = self.spec_plan(hwnd, client, foreground, ext)->Ok_0;
            assert(p.1 >= 0) by {
                if !self.state.is_paused {
                    let ring = self.spec_workspaces(hwnd)->Ok_0;
                    lemma_row_left_mono(ext.workspaces@, height_of(client), 0, ring.elements@.len() as int);
                }
            }
            self.lemma_plan_ignores_width(hwnd, client, fitted, foreground, ext);
        }
    }
}

} // verus!
