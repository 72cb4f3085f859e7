use vstd::prelude::*;
use super::{AppError, Application};
use crate::geometry::{Rect, Size};
use crate::settings::{ColorRef, ColorSettings};
use crate::state::{CurrentState, WorkspaceInfo, WorkspaceRing};

verus! {

/// Division that rounds toward zero, as `/` on machine integers does.
pub open spec fn trunc_div(a: int, b: int) -> int {
    if a >= 0 {
        a / b
    } else {
        -((-a) / b)
    }
}

/// The thickness of the bar under a workspace's name, for a window `height` high.
pub open spec fn spec_bar_height(height: int) -> int {
    trunc_div(height, 6)
}

/// The space left and right of a workspace's name.
pub open spec fn spec_text_padding(height: int) -> int {
    2 * spec_bar_height(height)
}

/// How far the bar under a workspace's name stays in from each side: less for the focused
/// workspace, so its bar is wider.
pub open spec fn spec_h_padding(height: int, focused: bool) -> int {
    let padding = trunc_div(spec_bar_height(height), 2);
    if focused {
        padding
    } else {
        padding * 2
    }
}

/// The bar under the focused workspace is at least as wide as it would be unfocused.
pub proof fn lemma_focused_bar_wider(height: int)
    requires
        height >= 0,
    ensures
        spec_h_padding(height, true) <= spec_h_padding(height, false),
{
}

/// The width of the text area of a small box of the scrolling-layout indicator.
pub const TEXT_WIDTH: i32 = 20;

/// The font to draw with: its face and its height.
pub struct FontSpec {
    pub face_name: String,
    pub height: i32,
}

/// A text that the bar draws.
#[derive(Debug, PartialEq, Eq)]
pub enum Label {
    /// A workspace's own name.
    Name(String),
    /// A number, written in decimal.
    Number(usize),
    /// "Paused".
    Paused,
    /// "Maximized".
    Maximized,
    /// "Monocle".
    Monocle,
    /// "•".
    Dot,
    /// No text.
    Blank,
}

/// How a text sits in its rectangle: centred horizontally, and at the bottom or in the middle.
#[derive(Clone, Copy, Debug, PartialEq, Eq, Structural)]
pub enum TextAlign {
    CenterBottom,
    CenterMiddle,
}

/// One drawing step.
#[derive(Debug, PartialEq, Eq)]
pub enum DrawOp {
    /// Draws `label` in `rect`, in the foreground colour.
    Text { label: Label, rect: Rect, align: TextAlign },
    /// Fills `rect` in `color`, with corners rounded by `radius`.
    RoundBox { rect: Rect, color: ColorRef, radius: Size },
}

/// The measured widths of the texts of the bar, in the bar's font.
pub struct TextExtents {
    /// The width of each workspace's label, in the order of the workspaces.
    pub workspaces: Vec<i32>,
    pub paused: i32,
    pub maximized: i32,
    pub monocle: i32,
}

/// What to draw, in order, and how wide the bar is.
pub struct BarPlan {
    pub ops: Vec<DrawOp>,
    pub width: i32,
}

/// The shape the window system gives a window's client area: at the origin, of
/// non-negative width and height.
pub open spec fn is_client_rect(r: Rect) -> bool {
    r.left == 0 && r.top == 0 && r.right >= 0 && r.bottom >= 0
}

/// Measured widths are never negative.
pub open spec fn extents_nonneg(e: TextExtents) -> bool {
    &&& forall|i: int| 0 <= i < e.workspaces@.len() ==> e.workspaces@[i] >= 0
    &&& e.paused >= 0
    &&& e.maximized >= 0
    &&& e.monocle >= 0
}

pub open spec fn height_of(client: Rect) -> int {
    client.bottom - client.top
}

/// `v` is a value of `i32`.
pub open spec fn fits_i32(v: int) -> bool {
    i32::MIN <= v <= i32::MAX
}

/// The sums that laying out a box `w` wide at `left` computes, where the box's text is padded
/// by the text padding of the client area, fit in `i32`; with `paint`, so do the sums that
/// place a box between `client.top + top_pad` and `client.bottom - bottom_pad`.
pub open spec fn padded_box_fits(client: Rect, left: int, w: int, paint: bool) -> bool {
    let h = height_of(client);
    let tp2 = spec_text_padding(h) * 2;
    &&& fits_i32(h)
    &&& fits_i32(w + tp2)
    &&& fits_i32(left + w + tp2)
    &&& paint ==> {
        &&& fits_i32(left + w)
        &&& fits_i32(client.top + spec_bar_height(h))
        &&& fits_i32(client.bottom - spec_bar_height(h))
    }
}

/// The sums that laying out workspace `idx`, whose label is `w` wide, at `left` computes fit
/// in `i32`.
pub open spec fn workspace_fits(client: Rect, idx: int, focused: int, left: int, w: int, paint: bool) -> bool {
    let h = height_of(client);
    let bar = spec_bar_height(h);
    let tp2 = spec_text_padding(h) * 2;
    let hp = spec_h_padding(h, focused == idx);
    &&& fits_i32(h)
    &&& fits_i32(w + tp2)
    &&& fits_i32(left + w + tp2)
    &&& paint ==> {
        &&& fits_i32(left + w)
        &&& fits_i32(left + hp)
        &&& fits_i32(left + w + tp2 - hp)
        &&& fits_i32(client.bottom - bar)
        &&& fits_i32(client.bottom - bar - bar)
        &&& fits_i32(client.bottom - bar - bar - trunc_div(bar, 2))
    }
}

/// The positions that the indicator for `n` containers of which container `f` is focused
/// counts fit in `usize`: the focused container's, and the one after next where a third
/// container is shown.
pub open spec fn indicator_numbers_fit(n: int, f: int) -> bool {
    &&& f + 1 <= usize::MAX
    &&& n >= 3 ==> f + 2 <= usize::MAX
}

/// The sums that laying out a small box of the indicator at `left` computes fit in `i32`.
pub open spec fn small_box_fits(client: Rect, left: int, padding: int, v_padding: int, paint: bool) -> bool {
    &&& fits_i32(padding * 2)
    &&& fits_i32(TEXT_WIDTH + padding * 2)
    &&& fits_i32(left + TEXT_WIDTH + padding * 2)
    &&& paint ==> {
        &&& fits_i32(height_of(client))
        &&& fits_i32(left + TEXT_WIDTH)
        &&& fits_i32(client.top + v_padding)
        &&& fits_i32(client.bottom - v_padding)
    }
}

pub open spec fn mk_rect(left: int, top: int, right: int, bottom: int) -> Rect {
    Rect { left: left as i32, top: top as i32, right: right as i32, bottom: bottom as i32 }
}

pub open spec fn radius_of(client: Rect) -> Size {
    let bar = spec_bar_height(height_of(client));
    Size { cx: bar as i32, cy: bar as i32 }
}

/// A workspace is labelled with its name, or else with its position counted from one.
pub open spec fn spec_ws_label(ws: WorkspaceInfo, idx: int) -> Label {
    match ws.name {
        Some(n) => Label::Name(n),
        None => Label::Number((idx + 1) as usize),
    }
}

/// The focused workspace's bar is in the accent colour; the others show whether they are empty.
pub open spec fn spec_ws_color(colors: ColorSettings, ws: WorkspaceInfo, idx: int, focused: int) -> ColorRef {
    if focused == idx {
        colors.focused
    } else if ws.is_empty {
        colors.empty
    } else {
        colors.nonempty
    }
}

/// The rectangle of the bar under workspace `idx` whose label is `w` wide and starts at `left`.
pub open spec fn spec_ws_bar_rect(client: Rect, idx: int, focused: int, w: int, left: int) -> Rect {
    let h = height_of(client);
    let bar = spec_bar_height(h);
    let vpad = bar;
    let tp = spec_text_padding(h);
    let hp = spec_h_padding(h, focused == idx);
    mk_rect(left + hp, client.bottom - vpad - bar, left + w + tp * 2 - hp, client.bottom - vpad)
}

/// What drawing workspace `idx` takes: its label above, then its bar.
pub open spec fn spec_ws_ops(
    colors: ColorSettings,
    client: Rect,
    ws: WorkspaceInfo,
    idx: int,
    focused: int,
    w: int,
    left: int,
) -> Seq<DrawOp> {
    let h = height_of(client);
    let bar = spec_bar_height(h);
    let vpad = bar;
    let tp = spec_text_padding(h);
    seq![
        DrawOp::Text {
            label: spec_ws_label(ws, idx),
            rect: mk_rect(left, 0, left + w + tp * 2, client.bottom - vpad - bar - trunc_div(vpad, 2)),
            align: TextAlign::CenterBottom,
        },
        DrawOp::RoundBox {
            rect: spec_ws_bar_rect(client, idx, focused, w, left),
            color: spec_ws_color(colors, ws, idx, focused),
            radius: radius_of(client),
        },
    ]
}

/// Where workspace `n` starts: the widths of the labels before it, each with its padding.
pub open spec fn row_left(widths: Seq<i32>, height: int, n: int) -> int
    decreases n,
{
    if n <= 0 {
        0
    } else {
        row_left(widths, height, n - 1) + widths[n - 1] + spec_text_padding(height) * 2
    }
}

/// What drawing the first `n` workspaces takes.
pub open spec fn row_ops(
    colors: ColorSettings,
    client: Rect,
    wss: Seq<WorkspaceInfo>,
    focused: int,
    widths: Seq<i32>,
    n: int,
) -> Seq<DrawOp>
    decreases n,
{
    if n <= 0 {
        Seq::empty()
    } else {
        row_ops(colors, client, wss, focused, widths, n - 1) + spec_ws_ops(
            colors,
            client,
            wss[n - 1],
            n - 1,
            focused,
            widths[n - 1] as int,
            row_left(widths, height_of(client), n - 1),
        )
    }
}

/// The "Paused" box, `w` wide, starting at `left`.
pub open spec fn spec_paused_ops(colors: ColorSettings, client: Rect, w: int, left: int) -> Seq<DrawOp> {
    let h = height_of(client);
    let vpad = spec_bar_height(h);
    let tp = spec_text_padding(h);
    let r = mk_rect(left, client.top + vpad, left + w + tp * 2, client.bottom - vpad);
    seq![
        DrawOp::RoundBox { rect: r, color: colors.empty, radius: radius_of(client) },
        DrawOp::Text { label: Label::Paused, rect: r, align: TextAlign::CenterMiddle },
    ]
}

/// The box naming the special state of the focused workspace, `w` wide, starting at `left`.
pub open spec fn spec_state_ops(
    colors: ColorSettings,
    client: Rect,
    current: CurrentState,
    w: int,
    left: int,
) -> Seq<DrawOp> {
    let h = height_of(client);
    let vpad = spec_bar_height(h);
    let tp = spec_text_padding(h);
    let r = mk_rect(left, client.top + vpad, left + w + tp * 2, client.bottom - vpad);
    let is_max = current == CurrentState::Maximized;
    seq![
        DrawOp::RoundBox {
            rect: r,
            color: if is_max { colors.maximized } else { colors.monocle },
            radius: radius_of(client),
        },
        DrawOp::Text {
            label: if is_max { Label::Maximized } else { Label::Monocle },
            rect: r,
            align: TextAlign::CenterMiddle,
        },
    ]
}

/// One small box of the scrolling-layout indicator: its background, then its text unless it
/// has none.
pub open spec fn spec_small_box_ops(
    client: Rect,
    label: Label,
    padding: int,
    color: ColorRef,
    left: int,
    v_padding: int,
) -> Seq<DrawOp> {
    let r = mk_rect(left, client.top + v_padding, left + TEXT_WIDTH + padding * 2, client.bottom - v_padding);
    let back = seq![DrawOp::RoundBox { rect: r, color, radius: radius_of(client) }];
    if label is Blank {
        back
    } else {
        back.push(DrawOp::Text { label, rect: r, align: TextAlign::CenterMiddle })
    }
}

/// The scrolling-layout indicator for `n` containers of which container `f` is focused,
/// starting at `left`: what it draws and where it ends. It shows the focused container's
/// position counted from one, its neighbours' positions where they exist, and a dot where
/// more containers lie beyond them.
pub open spec fn spec_indicator(
    colors: ColorSettings,
    client: Rect,
    n: int,
    f: int,
    left: int,
) -> (Seq<DrawOp>, int) {
    let h = height_of(client);
    let vpad = spec_bar_height(h);
    let key = colors.spec_color_key();
    let l1 = left + spec_text_padding(h);
    let o1 = if n >= 3 {
        spec_small_box_ops(client, if f > 1 { Label::Dot } else { Label::Blank }, 0, key, l1, vpad * 2)
    } else {
        Seq::empty()
    };
    let l2 = if n >= 3 { l1 + 20 } else { l1 };
    let c2 = n > 2 || (n == 2 && f == 1);
    let o2 = if c2 {
        spec_small_box_ops(
            client,
            if f > 0 { Label::Number(f as usize) } else { Label::Blank },
            12,
            if f > 0 { colors.empty } else { key },
            l2,
            trunc_div(vpad * 8, 5),
        )
    } else {
        Seq::empty()
    };
    let l3 = if c2 { l2 + 44 } else { l2 };
    let o3 = spec_small_box_ops(client, Label::Number((f + 1) as usize), 16, colors.monocle, l3, trunc_div(vpad * 7, 5));
    let l4 = l3 + 52;
    let o4 = if n >= 2 {
        spec_small_box_ops(
            client,
            if f + 1 < n { Label::Number((f + 2) as usize) } else { Label::Blank },
            12,
            if f + 1 < n { colors.empty } else { key },
            l4,
            trunc_div(vpad * 8, 5),
        )
    } else {
        Seq::empty()
    };
    let l5 = if n >= 2 { l4 + 44 } else { l4 };
    let o5 = if n >= 3 {
        spec_small_box_ops(client, if f + 2 < n { Label::Dot } else { Label::Blank }, 0, key, l5, vpad * 2)
    } else {
        Seq::empty()
    };
    let l6 = if n >= 3 { l5 + 20 } else { l5 };
    (o1 + o2 + o3 + o4 + o5, l6)
}

/// Where a workspace starts grows with the number of workspaces before it.
pub proof fn lemma_row_left_mono(widths: Seq<i32>, height: int, i: int, j: int)
    requires
        0 <= i <= j <= widths.len(),
        height >= 0,
        forall|k: int| 0 <= k < widths.len() ==> widths[k] >= 0,
    ensures
        0 <= row_left(widths, height, i) <= row_left(widths, height, j),
    decreases j,
{
    if i < j {
        lemma_row_left_mono(widths, height, i, j - 1);
        assert(widths[j - 1] >= 0);
    } else if j > 0 {
        lemma_row_left_mono(widths, height, j - 1, j - 1);
        assert(widths[j - 1] >= 0);
    }
}

impl Application {
    /// The focused workspace of the window `hwnd` shows the scrolling-layout indicator.
    pub open spec fn spec_draws_indicator(&self, hwnd: isize, foreground: Option<isize>) -> bool {
        &&& !self.state.is_paused
        &&& self.spec_workspaces(hwnd) matches Ok(ring)
        &&& ring.spec_focused() matches Some(cw)
        &&& cw.spec_current_state(foreground) == CurrentState::Normal
        &&& cw.scrolling
        &&& cw.container_count > 1
    }

    /// What the window `hwnd`, with client area `client`, draws, in order, and how wide it is,
    /// when the foreground window is `foreground` and the texts measure `ext`: "Paused" while
    /// the window manager is paused; else the workspaces of the window's monitor, then the
    /// special state of the focused workspace or its scrolling-layout indicator.
    pub open spec fn spec_plan(
        &self,
        hwnd: isize,
        client: Rect,
        foreground: Option<isize>,
        ext: TextExtents,
    ) -> Result<(Seq<DrawOp>, int), AppError> {
        let h = height_of(client);
        let colors = self.settings.colors;
        if self.state.is_paused {
            Ok((spec_paused_ops(colors, client, ext.paused as int, 0), ext.paused + spec_text_padding(h) * 2))
        } else {
            match self.spec_workspaces(hwnd) {
                Err(e) => Err(e),
                Ok(ring) => {
                    let n = ring.elements@.len() as int;
                    let row = row_ops(colors, client, ring.elements@, ring.focused as int, ext.workspaces@, n);
                    let l0 = row_left(ext.workspaces@, h, n);
                    match ring.spec_focused() {
                        None => Ok((row, l0)),
                        Some(cw) => {
                            let current = cw.spec_current_state(foreground);
                            if current == CurrentState::Normal {
                                if cw.scrolling && cw.container_count > 1 {
                                    let ind = spec_indicator(
                                        colors,
                                        client,
                                        cw.container_count as int,
                                        cw.focused_container as int,
                                        l0,
                                    );
                                    Ok((row + ind.0, ind.1))
                                } else {
                                    Ok((row, l0))
                                }
                            } else {
                                let w = if current == CurrentState::Maximized {
                                    ext.maximized as int
                                } else {
                                    ext.monocle as int
                                };
                                Ok((row + spec_state_ops(colors, client, current, w, l0), l0 + w + spec_text_padding(h) * 2))
                            }
                        },
                    }
                },
            }
        }
    }

    /// The inputs on which drawing stays within the machine's integers: a client area as the
    /// window system gives it, measured widths for each workspace shown, a bar no wider than
    /// `i32::MAX`, and an indicator whose numbers fit.
    pub open spec fn paint_in_range(
        &self,
        hwnd: isize,
        client: Rect,
        foreground: Option<isize>,
        ext: TextExtents,
    ) -> bool {
        &&& is_client_rect(client)
        &&& extents_nonneg(ext)
        &&& (!self.state.is_paused && self.spec_workspaces(hwnd) is Ok) ==> ext.workspaces@.len()
            == self.spec_workspaces(hwnd)->Ok_0.elements@.len()
        &&& (self.spec_plan(hwnd, client, foreground, ext) matches Ok(p) ==> p.1 <= i32::MAX)
        &&& self.spec_draws_indicator(hwnd, foreground) ==> {
            &&& spec_bar_height(height_of(client)) * 8 <= i32::MAX
            &&& indicator_numbers_fit(
                self.spec_workspaces(hwnd)->Ok_0.spec_focused()->Some_0.container_count as int,
                self.spec_workspaces(hwnd)->Ok_0.spec_focused()->Some_0.focused_container as int,
            )
        }
    }

    fn get_bar_height(&self, height: i32) -> (r: i32)
        ensures
            r == spec_bar_height(height as int),
    {
        height / 6
    }

    fn get_vertical_padding(&self, height: i32) -> (r: i32)
        ensures
            r == spec_bar_height(height as int),
    {
        self.get_bar_height(height)
    }

    pub fn get_text_padding(&self, height: i32) -> (r: i32)
        ensures
            r == spec_text_padding(height as int),
    {
        self.get_bar_height(height) * 2
    }

    pub fn get_border_radius(&self, height: i32) -> (r: Size)
        ensures
            r.cx == spec_bar_height(height as int),
            r.cy == spec_bar_height(height as int),
    {
        let radius = self.get_bar_height(height);
        Size { cx: radius, cy: radius }
    }

    pub fn get_h_padding(&self, height: i32, focused: bool) -> (r: i32)
        ensures
            r == spec_h_padding(height as int, focused),
    {
        let padding = self.get_bar_height(height) / 2;
        if focused {
            padding
        } else {
            padding * 2
        }
    }

    /// The font for a window `height` high: the settings' face, a third of the height tall.
    pub fn get_font(&self, height: i32) -> (f: FontSpec)
        ensures
            f.face_name@ == self.settings.font_name@,
            f.height == trunc_div(height as int, 3),
    {
        FontSpec { face_name: self.settings.font_name.clone(), height: height / 3 }
    }

    /// Lays out workspace `idx`, whose label is `text_width` wide, at `*left`, and moves
    /// `*left` past it.
    fn draw_workspace(
        &self,
        client: &Rect,
        idx: usize,
        workspace: &WorkspaceInfo,
        focused_idx: usize,
        left: &mut i32,
        text_width: i32,
        paint: bool,
        ops: &mut Vec<DrawOp>,
    )
        requires
            workspace_fits(*client, idx as int, focused_idx as int, *old(left) as int, text_width as int, paint),
            idx < usize::MAX,
        ensures
            *final(left) == *old(left) + text_width + spec_text_padding(height_of(*client)) * 2,
            final(ops)@ == old(ops)@ + if paint {
                spec_ws_ops(
                    self.settings.colors,
                    *client,
                    *workspace,
                    idx as int,
                    focused_idx as int,
                    text_width as int,
                    *old(left) as int,
                )
            } else {
                Seq::empty()
            },
    {
        let height = client.bottom - client.top;
        let vpad = self.get_vertical_padding(height);
        let bar_height = self.get_bar_height(height);
        let text_padding = self.get_text_padding(height);
        if paint {
            let label = match &workspace.name {
                Some(name) => Label::Name(name.clone()),
                None => Label::Number(idx + 1),
            };
            let text_rect = Rect {
                left: *left,
                right: *left + text_width + text_padding * 2,
                top: 0,
                bottom: client.bottom - vpad - bar_height - vpad / 2,
            };
            ops.push(DrawOp::Text { label, rect: text_rect, align: TextAlign::CenterBottom });
            let h_padding = self.get_h_padding(height, focused_idx == idx);
            let focused_rect = Rect {
                left: *left + h_padding,
                right: *left + text_width + text_padding * 2 - h_padding,
                top: client.bottom - vpad - bar_height,
                bottom: client.bottom - vpad,
            };
            let color = if focused_idx == idx {
                self.settings.colors.focused
            } else if workspace.is_empty {
                self.settings.colors.empty
            } else {
                self.settings.colors.nonempty
            };
            let radius = self.get_border_radius(height);
            ops.push(DrawOp::RoundBox { rect: focused_rect, color, radius });
        }
        *left = *left + (text_width + text_padding * 2);
    }

    /// Lays out the "Paused" box, `text_width` wide, at `*left`, and moves `*left` past it.
    fn draw_paused(&self, client: &Rect, left: &mut i32, text_width: i32, paint: bool, ops: &mut Vec<DrawOp>)
        requires
            padded_box_fits(*client, *old(left) as int, text_width as int, paint),
        ensures
            *final(left) == *old(left) + text_width + spec_text_padding(height_of(*client)) * 2,
            final(ops)@ == old(ops)@ + if paint {
                spec_paused_ops(self.settings.colors, *client, text_width as int, *old(left) as int)
            } else {
                Seq::empty()
            },
    {
        let height = client.bottom - client.top;
        let vpad = self.get_vertical_padding(height);
        let text_padding = self.get_text_padding(height);
        if paint {
            let text_rect = Rect {
                left: *left,
                right: *left + text_width + text_padding * 2,
                top: client.top + vpad,
                bottom: client.bottom - vpad,
            };
            let radius = self.get_border_radius(height);
            ops.push(DrawOp::RoundBox { rect: text_rect, color: self.settings.colors.empty, radius });
            ops.push(DrawOp::Text { label: Label::Paused, rect: text_rect, align: TextAlign::CenterMiddle });
        }
        *left = *left + (text_width + text_padding * 2);
    }

    /// Lays out the box naming the special state `current`, whose text is `text_width` wide,
    /// at `*left`, and moves `*left` past it.
    fn draw_current_state(
        &self,
        client: &Rect,
        current: CurrentState,
        left: &mut i32,
        text_width: i32,
        paint: bool,
        ops: &mut Vec<DrawOp>,
    )
        requires
            padded_box_fits(*client, *old(left) as int, text_width as int, paint),
        ensures
            *final(left) == *old(left) + text_width + spec_text_padding(height_of(*client)) * 2,
            final(ops)@ == old(ops)@ + if paint {
                spec_state_ops(self.settings.colors, *client, current, text_width as int, *old(left) as int)
            } else {
                Seq::empty()
            },
    {
        let height = client.bottom - client.top;
        let vpad = self.get_vertical_padding(height);
        let text_padding = self.get_text_padding(height);
        if paint {
            let text_rect = Rect {
                left: *left,
                right: *left + text_width + text_padding * 2,
                top: client.top + vpad,
                bottom: client.bottom - vpad,
            };
            let is_max = match current {
                CurrentState::Maximized => true,
                _ => false,
            };
            let color = if is_max {
                self.settings.colors.maximized
            } else {
                self.settings.colors.monocle
            };
            let radius = self.get_border_radius(height);
            ops.push(DrawOp::RoundBox { rect: text_rect, color, radius });
            let label = if is_max {
                Label::Maximized
            } else {
                Label::Monocle
            };
            ops.push(DrawOp::Text { label, rect: text_rect, align: TextAlign::CenterMiddle });
        }
        *left = *left + (text_width + text_padding * 2);
    }

    /// Lays out one small box of the scrolling-layout indicator at `*left`, and moves `*left`
    /// past it.
    fn draw_small_box(
        &self,
        client: &Rect,
        text: Label,
        padding: i32,
        bg_color: ColorRef,
        left: &mut i32,
        v_padding: i32,
        paint: bool,
        ops: &mut Vec<DrawOp>,
    )
        requires
            small_box_fits(*client, *old(left) as int, padding as int, v_padding as int, paint),
        ensures
            *final(left) == *old(left) + TEXT_WIDTH + padding * 2,
            final(ops)@ == old(ops)@ + if paint {
                spec_small_box_ops(*client, text, padding as int, bg_color, *old(left) as int, v_padding as int)
            } else {
                Seq::empty()
            },
    {
        if paint {
            let height = client.bottom - client.top;
            let text_rect = Rect {
                left: *left,
                right: *left + TEXT_WIDTH + padding * 2,
                top: client.top + v_padding,
                bottom: client.bottom - v_padding,
            };
            let radius = self.get_border_radius(height);
            ops.push(DrawOp::RoundBox { rect: text_rect, color: bg_color, radius });
            match text {
                Label::Blank => {},
                _ => {
                    ops.push(DrawOp::Text { label: text, rect: text_rect, align: TextAlign::CenterMiddle });
                },
            }
        }
        *left = *left + (TEXT_WIDTH + padding * 2);
    }

    /// Lays out the scrolling-layout indicator for `total` containers of which container
    /// `focused_idx` is focused, at `*left`, and moves `*left` past it.
    fn draw_scroll_indicator(
        &self,
        client: &Rect,
        total: usize,
        focused_idx: usize,
        left: &mut i32,
        paint: bool,
        ops: &mut Vec<DrawOp>,
    )
        requires
            is_client_rect(*client),
            total > 1,
            indicator_numbers_fit(total as int, focused_idx as int),
            spec_bar_height(height_of(*client)) * 8 <= i32::MAX,
            *old(left) >= 0,
            spec_indicator(
                self.settings.colors,
                *client,
                total as int,
                focused_idx as int,
                *old(left) as int,
            ).1 <= i32::MAX,
        ensures
            *final(left) == spec_indicator(
                self.settings.colors,
                *client,
                total as int,
                focused_idx as int,
                *old(left) as int,
            ).1,
            final(ops)@ == old(ops)@ + if paint {
                spec_indicator(
                    self.settings.colors,
                    *client,
                    total as int,
                    focused_idx as int,
                    *old(left) as int,
                ).0
            } else {
                Seq::empty()
            },
    {
        let ghost colors = self.settings.colors;
        let ghost c = *client;
        let ghost n = total as int;
        let ghost f = focused_idx as int;
        let ghost start = *left as int;
        let ghost start_ops = ops@;
        let ghost h = height_of(c);
        let ghost vp = spec_bar_height(h);
        let ghost key = colors.spec_color_key();
        let ghost l1 = start + spec_text_padding(h);
        let ghost o1 = if n >= 3 {
            spec_small_box_ops(c, if f > 1 { Label::Dot } else { Label::Blank }, 0, key, l1, vp * 2)
        } else {
            Seq::empty()
        };
        let ghost l2 = if n >= 3 { l1 + 20 } else { l1 };
        let ghost c2 = n > 2 || (n == 2 && f == 1);
        let ghost o2 = if c2 {
            spec_small_box_ops(
                c,
                if f > 0 { Label::Number(f as usize) } else { Label::Blank },
                12,
                if f > 0 { colors.empty } else { key },
                l2,
                trunc_div(vp * 8, 5),
            )
        } else {
            Seq::empty()
        };
        let ghost l3 = if c2 { l2 + 44 } else { l2 };
        let ghost o3 = spec_small_box_ops(c, Label::Number((f + 1) as usize), 16, colors.monocle, l3, trunc_div(vp * 7, 5));
        let ghost l4 = l3 + 52;
        let ghost o4 = spec_small_box_ops(
            c,
            if f + 1 < n { Label::Number((f + 2) as usize) } else { Label::Blank },
            12,
            if f + 1 < n { colors.empty } else { key },
            l4,
            trunc_div(vp * 8, 5),
        );
        let ghost l5 = l4 + 44;
        let ghost o5 = if n >= 3 {
            spec_small_box_ops(c, if f + 2 < n { Label::Dot } else { Label::Blank }, 0, key, l5, vp * 2)
        } else {
            Seq::empty()
        };
        let ghost empty_ops = Seq::<DrawOp>::empty();

        let height = client.bottom - client.top;
        let vpad = self.get_vertical_padding(height);
        *left = *left + self.get_text_padding(height);
        if total >= 3 {
            let text = if focused_idx > 1 {
                Label::Dot
            } else {
                Label::Blank
            };
            let key_color = self.settings.colors.get_color_key();
            self.draw_small_box(client, text, 0, key_color, left, vpad * 2, paint, ops);
        }
        assert(*left == l2);
        assert(ops@ =~= start_ops + if paint { o1 } else { empty_ops });
        if total > 2 || (total == 2 && focused_idx == 1) {
            let text = if focused_idx > 0 {
                Label::Number(focused_idx)
            } else {
                Label::Blank
            };
            let color = if focused_idx > 0 {
                self.settings.colors.empty
            } else {
                self.settings.colors.get_color_key()
            };
            self.draw_small_box(client, text, 12, color, left, vpad * 8 / 5, paint, ops);
        }
        assert(*left == l3);
        assert(ops@ =~= start_ops + if paint { o1 + o2 } else { empty_ops });
        self.draw_small_box(
            client,
            Label::Number(focused_idx + 1),
            16,
            self.settings.colors.monocle,
            left,
            vpad * 7 / 5,
            paint,
            ops,
        );
        assert(ops@ =~= start_ops + if paint { o1 + o2 + o3 } else { empty_ops });
        if total >= 2 {
            let text = if focused_idx + 1 < total {
                Label::Number(focused_idx + 2)
            } else {
                Label::Blank
            };
            let color = if focused_idx + 1 < total {
                self.settings.colors.empty
            } else {
                self.settings.colors.get_color_key()
            };
            self.draw_small_box(client, text, 12, color, left, vpad * 8 / 5, paint, ops);
        }
        assert(ops@ =~= start_ops + if paint { o1 + o2 + o3 + o4 } else { empty_ops });
        if total >= 3 {
            let text = if focused_idx + 2 < total {
                Label::Dot
            } else {
                Label::Blank
            };
            let key_color = self.settings.colors.get_color_key();
            self.draw_small_box(client, text, 0, key_color, left, vpad * 2, paint, ops);
        }
        assert(ops@ =~= start_ops + if paint { o1 + o2 + o3 + o4 + o5 } else { empty_ops });
    }

    /// Lays out what the window `hwnd` draws on its client area `client` when the foreground
    /// window is `foreground` and the bar's texts measure `extents`: with `paint`, the drawing
    /// steps in order; in any case, how wide the bar is.
    pub fn paint_and_get_width(
        &self,
        hwnd: isize,
        client: &Rect,
        paint: bool,
        foreground: Option<isize>,
        extents: &TextExtents,
    ) -> (r: Result<BarPlan, AppError>)
        requires
            self.paint_in_range(hwnd, *client, foreground, *extents),
        ensures
            match self.spec_plan(hwnd, *client, foreground, *extents) {
                Err(e) => r matches Err(e2) && e2 == e,
                Ok(p) => r matches Ok(plan) && plan.width == p.1 && plan.ops@ == if paint {
                    p.0
                } else {
                    Seq::empty()
                },
            },
    {
        let height = client.bottom - client.top;
        let mut ops: Vec<DrawOp> = Vec::new();
        let mut left: i32 = 0;
        if self.state.is_paused {
            self.draw_paused(client, &mut left, extents.paused, paint, &mut ops);
            assert(ops@ =~= if paint {
                spec_paused_ops(self.settings.colors, *client, extents.paused as int, 0)
            } else {
                Seq::<DrawOp>::empty()
            });
            return Ok(BarPlan { ops, width: left });
        }
        let workspaces = match self.workspaces(hwnd) {
            Ok(w) => w,
            Err(e) => return Err(e),
        };
        let focused_idx = workspaces.focused_idx();
        let n = workspaces.elements.len();
        let ghost widths = extents.workspaces@;
        let ghost colors = self.settings.colors;
        proof {
            let l0 = row_left(widths, height as int, n as int);
            lemma_row_left_mono(widths, height as int, 0, n as int);
            let p = self.spec_plan(hwnd, *client, foreground, *extents);
            assert(p matches Ok(q) && q.1 >= l0);
        }
        let mut idx: usize = 0;
        while idx < n
            invariant
                idx <= n,
                n == workspaces.elements@.len(),
                n == extents.workspaces@.len(),
                widths == extents.workspaces@,
                colors == self.settings.colors,
                focused_idx == workspaces.focused,
                height == height_of(*client),
                is_client_rect(*client),
                extents_nonneg(*extents),
                row_left(widths, height as int, n as int) <= i32::MAX,
                left == row_left(widths, height as int, idx as int),
                ops@ == if paint {
                    row_ops(colors, *client, workspaces.elements@, focused_idx as int, widths, idx as int)
                } else {
                    Seq::<DrawOp>::empty()
                },
            decreases n - idx,
        {
            proof {
                lemma_row_left_mono(widths, height as int, 0, idx as int);
                lemma_row_left_mono(widths, height as int, idx + 1, n as int);
            }
            self.draw_workspace(
                client,
                idx,
                &workspaces.elements[idx],
                focused_idx,
                &mut left,
                extents.workspaces[idx],
                paint,
                &mut ops,
            );
            idx = idx + 1;
        }
        let ghost row_end = ops@;
        match workspaces.focused() {
            None => {},
            Some(cw) => {
                let current = cw.current_state(foreground);
                match current {
                    CurrentState::Normal => {
                        if cw.scrolling {
                            let focused_container = cw.focused_container;
                            let total = cw.container_count;
                            if total > 1 {
                                self.draw_scroll_indicator(
                                    client,
                                    total,
                                    focused_container,
                                    &mut left,
                                    paint,
                                    &mut ops,
                                );
                            }
                        }
                    },
                    _ => {
                        let is_max = match current {
                            CurrentState::Maximized => true,
                            _ => false,
                        };
                        let text_width = if is_max {
                            extents.maximized
                        } else {
                            extents.monocle
                        };
                        self.draw_current_state(client, current, &mut left, text_width, paint, &mut ops);
                    },
                }
            },
        }
        Ok(BarPlan { ops, width: left })
    }
}

} // verus!
