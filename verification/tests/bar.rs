use komoswitch::application::paint::{BarPlan, DrawOp, Label, TextAlign, TextExtents};
use komoswitch::application::window::Window;
use komoswitch::application::{AppError, Application};
use komoswitch::geometry::{MonitorRect, Rect, Size};
use komoswitch::settings::{ColorRef, ColorSettings, Settings, UiColor};
use komoswitch::state::{BarState, MonitorInfo, WorkspaceInfo, WorkspaceRing};

fn workspace(name: Option<&str>, is_empty: bool) -> WorkspaceInfo {
    WorkspaceInfo {
        name: name.map(|n| n.to_string()),
        is_empty,
        scrolling: false,
        container_count: 1,
        focused_container: 0,
        maximized_hwnd: None,
        monocle_hwnds: None,
    }
}

fn colors() -> ColorSettings {
    ColorSettings::new(UiColor { r: 255, g: 255, b: 255 }, UiColor { r: 0, g: 120, b: 215 })
}

/// One monitor (id 7) with three workspaces, the first focused, shown by window 42.
fn app(first: WorkspaceInfo, paused: bool) -> Application {
    let state = BarState {
        monitors: vec![MonitorInfo {
            id: 7,
            name: "DISPLAY1".to_string(),
            size: MonitorRect { left: 0, top: 0, right: 1920, bottom: 1080 },
            workspaces: WorkspaceRing {
                elements: vec![first, workspace(None, true), workspace(Some("code"), false)],
                focused: 0,
            },
        }],
        is_paused: paused,
    };
    let mut app = Application::new(state, Settings::new(colors()));
    app.add_window(7);
    assert!(app.attach_hwnd(42));
    app
}

fn extents() -> TextExtents {
    TextExtents { workspaces: vec![30, 8, 40], paused: 50, maximized: 70, monocle: 60 }
}

const CLIENT: Rect = Rect { left: 0, top: 0, right: 200, bottom: 60 };

fn rect(left: i32, top: i32, right: i32, bottom: i32) -> Rect {
    Rect { left, top, right, bottom }
}

fn row_ops() -> Vec<DrawOp> {
    let c = colors();
    let radius = Size { cx: 10, cy: 10 };
    vec![
        DrawOp::Text { label: Label::Name("web".to_string()), rect: rect(0, 0, 70, 35), align: TextAlign::CenterBottom },
        DrawOp::RoundBox { rect: rect(5, 40, 65, 50), color: c.focused, radius },
        DrawOp::Text { label: Label::Number(2), rect: rect(70, 0, 118, 35), align: TextAlign::CenterBottom },
        DrawOp::RoundBox { rect: rect(80, 40, 108, 50), color: c.empty, radius },
        DrawOp::Text { label: Label::Name("code".to_string()), rect: rect(118, 0, 198, 35), align: TextAlign::CenterBottom },
        DrawOp::RoundBox { rect: rect(128, 40, 188, 50), color: c.nonempty, radius },
    ]
}

fn plan(app: &Application, paint: bool, fg: Option<isize>) -> BarPlan {
    app.paint_and_get_width(42, &CLIENT, paint, fg, &extents()).unwrap()
}

#[test]
fn metrics_follow_height() {
    let a = app(workspace(Some("web"), false), false);
    assert_eq!(a.get_text_padding(60), 20);
    assert_eq!(a.get_border_radius(60), Size { cx: 10, cy: 10 });
    assert_eq!(a.get_h_padding(60, true), 5);
    assert_eq!(a.get_h_padding(60, false), 10);
    assert_eq!(a.get_h_padding(40, true), 3);
    assert_eq!(a.get_h_padding(40, false), 6);
    assert_eq!(a.get_text_padding(-13), -4);
    let font = a.get_font(40);
    assert_eq!(font.face_name, "Segoe UI Variable Text");
    assert_eq!(font.height, 13);
}

#[test]
fn workspaces_are_laid_out_in_a_row() {
    let a = app(workspace(Some("web"), false), false);
    let p = plan(&a, true, None);
    assert_eq!(p.width, 198);
    assert_eq!(p.ops, row_ops());
}

#[test]
fn measuring_only_draws_nothing() {
    let a = app(workspace(Some("web"), false), false);
    let p = plan(&a, false, None);
    assert_eq!(p.width, 198);
    assert!(p.ops.is_empty());
}

#[test]
fn paused_shows_only_paused_box() {
    let a = app(workspace(Some("web"), false), true);
    let p = plan(&a, true, None);
    assert_eq!(p.width, 90);
    let r = rect(0, 10, 90, 50);
    assert_eq!(
        p.ops,
        vec![
            DrawOp::RoundBox { rect: r, color: colors().empty, radius: Size { cx: 10, cy: 10 } },
            DrawOp::Text { label: Label::Paused, rect: r, align: TextAlign::CenterMiddle },
        ]
    );
}

#[test]
fn maximized_foreground_window_is_named() {
    let mut w = workspace(Some("web"), false);
    w.maximized_hwnd = Some(77);
    let a = app(w, false);
    let p = plan(&a, true, Some(77));
    assert_eq!(p.width, 198 + 70 + 40);
    let mut expected = row_ops();
    let r = rect(198, 10, 308, 50);
    expected.push(DrawOp::RoundBox { rect: r, color: colors().maximized, radius: Size { cx: 10, cy: 10 } });
    expected.push(DrawOp::Text { label: Label::Maximized, rect: r, align: TextAlign::CenterMiddle });
    assert_eq!(p.ops, expected);
    let other = plan(&a, true, Some(78));
    assert_eq!(other.width, 198);
}

#[test]
fn monocle_wins_over_maximized() {
    let mut w = workspace(Some("web"), false);
    w.maximized_hwnd = Some(77);
    w.monocle_hwnds = Some(vec![76, 77]);
    let a = app(w, false);
    let p = plan(&a, true, Some(77));
    assert_eq!(p.width, 198 + 60 + 40);
    assert_eq!(p.ops[7], DrawOp::Text { label: Label::Monocle, rect: rect(198, 10, 298, 50), align: TextAlign::CenterMiddle });
    assert_eq!(p.ops[6], DrawOp::RoundBox { rect: rect(198, 10, 298, 50), color: colors().monocle, radius: Size { cx: 10, cy: 10 } });
}

#[test]
fn scrolling_indicator_shows_neighbours() {
    let mut w = workspace(Some("web"), false);
    w.scrolling = true;
    w.container_count = 4;
    w.focused_container = 1;
    let a = app(w, false);
    let p = plan(&a, true, None);
    assert_eq!(p.width, 398);
    let c = colors();
    let key = c.get_color_key();
    let radius = Size { cx: 10, cy: 10 };
    let mut expected = row_ops();
    expected.push(DrawOp::RoundBox { rect: rect(218, 20, 238, 40), color: key, radius });
    expected.push(DrawOp::RoundBox { rect: rect(238, 16, 282, 44), color: c.empty, radius });
    expected.push(DrawOp::Text { label: Label::Number(1), rect: rect(238, 16, 282, 44), align: TextAlign::CenterMiddle });
    expected.push(DrawOp::RoundBox { rect: rect(282, 14, 334, 46), color: c.monocle, radius });
    expected.push(DrawOp::Text { label: Label::Number(2), rect: rect(282, 14, 334, 46), align: TextAlign::CenterMiddle });
    expected.push(DrawOp::RoundBox { rect: rect(334, 16, 378, 44), color: c.empty, radius });
    expected.push(DrawOp::Text { label: Label::Number(3), rect: rect(334, 16, 378, 44), align: TextAlign::CenterMiddle });
    expected.push(DrawOp::RoundBox { rect: rect(378, 20, 398, 40), color: key, radius });
    expected.push(DrawOp::Text { label: Label::Dot, rect: rect(378, 20, 398, 40), align: TextAlign::CenterMiddle });
    assert_eq!(p.ops, expected);
}

#[test]
fn scrolling_indicator_with_two_containers_first_focused() {
    let mut w = workspace(Some("web"), false);
    w.scrolling = true;
    w.container_count = 2;
    w.focused_container = 0;
    let a = app(w, false);
    let p = plan(&a, true, None);
    // padding, the focused box (52) and the next box (44)
    assert_eq!(p.width, 198 + 20 + 52 + 44);
    let c = colors();
    assert_eq!(p.ops.len(), 6 + 2 + 2);
    assert_eq!(p.ops[6], DrawOp::RoundBox { rect: rect(218, 14, 270, 46), color: c.monocle, radius: Size { cx: 10, cy: 10 } });
    assert_eq!(p.ops[7], DrawOp::Text { label: Label::Number(1), rect: rect(218, 14, 270, 46), align: TextAlign::CenterMiddle });
    assert_eq!(p.ops[9], DrawOp::Text { label: Label::Number(2), rect: rect(270, 16, 314, 44), align: TextAlign::CenterMiddle });
}

#[test]
fn scrolling_indicator_with_two_containers_last_focused() {
    let mut w = workspace(Some("web"), false);
    w.scrolling = true;
    w.container_count = 2;
    w.focused_container = 1;
    let a = app(w, false);
    let p = plan(&a, true, None);
    assert_eq!(p.width, 198 + 20 + 44 + 52 + 44);
    let key = colors().get_color_key();
    // the box after the focused one is blank, in the colour key
    assert_eq!(p.ops.len(), 6 + 2 + 2 + 1);
    assert_eq!(p.ops[10], DrawOp::RoundBox { rect: rect(314, 16, 358, 44), color: key, radius: Size { cx: 10, cy: 10 } });
}

#[test]
fn single_container_shows_no_indicator() {
    let mut w = workspace(Some("web"), false);
    w.scrolling = true;
    w.container_count = 1;
    let a = app(w, false);
    assert_eq!(plan(&a, true, None).width, 198);
}

#[test]
fn unknown_window_has_no_monitor() {
    let a = app(workspace(Some("web"), false), false);
    let r = a.paint_and_get_width(43, &CLIENT, true, None, &extents());
    assert!(matches!(r, Err(AppError::NoMonitorId { hwnd: 43 })));
}

#[test]
fn window_of_vanished_monitor() {
    let mut a = app(workspace(Some("web"), false), false);
    a.add_window(9);
    assert!(a.attach_hwnd(44));
    assert_eq!(a.get_monitor_id(44), Ok(9));
    let r = a.workspace_at_x(44, 10, &CLIENT, &extents());
    assert_eq!(r, Err(AppError::NoMonitor { monitor_id: 9 }));
}

#[test]
fn click_finds_workspace_under_bar() {
    let a = app(workspace(Some("web"), false), false);
    let ext = extents();
    assert_eq!(a.workspace_at_x(42, 5, &CLIENT, &ext), Ok(Some(0)));
    assert_eq!(a.workspace_at_x(42, 65, &CLIENT, &ext), Ok(Some(0)));
    assert_eq!(a.workspace_at_x(42, 4, &CLIENT, &ext), Ok(None));
    assert_eq!(a.workspace_at_x(42, 67, &CLIENT, &ext), Ok(None));
    assert_eq!(a.workspace_at_x(42, 100, &CLIENT, &ext), Ok(Some(1)));
    assert_eq!(a.workspace_at_x(42, 188, &CLIENT, &ext), Ok(Some(2)));
    assert_eq!(a.workspace_at_x(42, 189, &CLIENT, &ext), Ok(None));
}

#[test]
fn click_agrees_with_drawn_bars() {
    let a = app(workspace(Some("web"), false), false);
    let ext = extents();
    let p = plan(&a, true, None);
    for x in -5..250 {
        let hit = a.workspace_at_x(42, x, &CLIENT, &ext).unwrap();
        let drawn = (0..3).find(|&i| match &p.ops[2 * i + 1] {
            DrawOp::RoundBox { rect, .. } => rect.left <= x && x <= rect.right,
            _ => false,
        });
        assert_eq!(hit, drawn, "x = {}", x);
    }
}

#[test]
fn resize_to_fit_then_settles() {
    let a = app(workspace(Some("web"), false), false);
    let ext = extents();
    let r = a.resize_to_fit(42, &CLIENT, None, &ext);
    assert_eq!(r, Ok(Some(Size { cx: 198, cy: 60 })));
    let fitted = Rect { left: 0, top: 0, right: 198, bottom: 60 };
    assert_eq!(a.resize_to_fit(42, &fitted, None, &ext), Ok(None));
}

#[test]
fn primary_window_and_destroy() {
    let mut a = app(workspace(Some("web"), false), false);
    assert_eq!(a.get_primary_hwnd(), Ok(42));
    a.add_window(7);
    assert!(a.attach_hwnd(43));
    a.add_window(8);
    assert!(a.attach_hwnd(42));
    a.destroy(42);
    assert_eq!(a.windows, vec![Window { hwnd: 43, monitor_id: 7 }]);
    a.destroy(43);
    assert!(a.windows.is_empty());
    assert_eq!(a.get_primary_hwnd(), Err(AppError::NoWindows));
    assert!(!a.attach_hwnd(5));
}

#[test]
fn new_window_waits_for_its_handle() {
    let state = BarState { monitors: vec![], is_paused: false };
    let mut a = Application::new(state, Settings::new(colors()));
    a.add_window(3);
    assert_eq!(a.windows, vec![Window { hwnd: 0, monitor_id: 3 }]);
    assert!(a.attach_hwnd(99));
    assert_eq!(a.windows, vec![Window { hwnd: 99, monitor_id: 3 }]);
}

#[test]
fn update_state_redraws_every_window() {
    let mut a = app(workspace(Some("web"), false), false);
    a.add_window(7);
    assert!(a.attach_hwnd(50));
    let redraw = a.handle_update_state(BarState { monitors: vec![], is_paused: true });
    assert_eq!(redraw, vec![42, 50]);
    assert!(a.state.is_paused);
    assert_eq!(a.windows.len(), 2);
}

#[test]
fn focused_ring_lookup() {
    let ring = WorkspaceRing { elements: vec![workspace(Some("a"), false)], focused: 0 };
    assert_eq!(ring.focused_idx(), 0);
    assert!(ring.focused().is_some());
    let out = WorkspaceRing { elements: vec![workspace(Some("a"), false)], focused: 3 };
    assert!(out.focused().is_none());
}

#[test]
fn colours_of_workspaces() {
    let a = app(workspace(Some("web"), true), false);
    let p = plan(&a, true, None);
    // the focused workspace takes the accent colour even when it is empty
    assert!(matches!(p.ops[1], DrawOp::RoundBox { color, .. } if color == colors().focused));
    assert!(matches!(p.ops[3], DrawOp::RoundBox { color: ColorRef(_), .. }));
}

#[test]
fn inputs_that_fit() {
    let a = app(workspace(Some("web"), false), false);
    assert!(a.paint_fits(42, &CLIENT, None, &extents()));
    assert!(a.hit_fits(42, &CLIENT, &extents()));
    // an unknown window fails with an error, not an overflow
    assert!(a.paint_fits(43, &CLIENT, None, &extents()));
}

#[test]
fn inputs_that_do_not_fit() {
    let a = app(workspace(Some("web"), false), false);
    let moved = Rect { left: 5, top: 0, right: 200, bottom: 60 };
    assert!(!a.paint_fits(42, &moved, None, &extents()));
    assert!(!a.hit_fits(42, &moved, &extents()));
    let mut negative = extents();
    negative.monocle = -1;
    assert!(!a.paint_fits(42, &CLIENT, None, &negative));
    let mut short = extents();
    short.workspaces.pop();
    assert!(!a.paint_fits(42, &CLIENT, None, &short));
    assert!(!a.hit_fits(42, &CLIENT, &short));
    let mut wide = extents();
    wide.workspaces[2] = i32::MAX - 100;
    assert!(!a.paint_fits(42, &CLIENT, None, &wide));
    assert!(!a.hit_fits(42, &CLIENT, &wide));
    let mut maximized = workspace(Some("web"), false);
    maximized.maximized_hwnd = Some(9);
    let b = app(maximized, false);
    let mut big_state = extents();
    big_state.maximized = i32::MAX - 200;
    assert!(b.paint_fits(42, &CLIENT, None, &big_state));
    assert!(!b.paint_fits(42, &CLIENT, Some(9), &big_state));
}

#[test]
fn tall_window_cannot_draw_indicator() {
    let mut w = workspace(Some("web"), false);
    w.scrolling = true;
    w.container_count = 3;
    let a = app(w, false);
    let tall = Rect { left: 0, top: 0, right: 10, bottom: 1_800_000_000 };
    let ext = TextExtents { workspaces: vec![0, 0, 0], paused: 0, maximized: 0, monocle: 0 };
    assert!(!a.paint_fits(42, &tall, None, &ext));
    let paused = app(workspace(Some("web"), false), true);
    assert!(paused.paint_fits(42, &tall, None, &ext));
    let low = Rect { left: 0, top: 0, right: 10, bottom: 1_000_000 };
    assert!(a.paint_fits(42, &low, None, &ext));
}

#[test]
fn focused_container_at_the_end_of_the_integers_does_not_fit() {
    let mut w = workspace(Some("web"), false);
    w.scrolling = true;
    w.container_count = 3;
    w.focused_container = usize::MAX - 1;
    let a = app(w, false);
    assert!(!a.paint_fits(42, &CLIENT, None, &extents()));
    let mut ok = workspace(Some("web"), false);
    ok.scrolling = true;
    ok.container_count = 3;
    ok.focused_container = usize::MAX - 2;
    let b = app(ok, false);
    assert!(b.paint_fits(42, &CLIENT, None, &extents()));
}

#[test]
fn low_window_bars_touch_and_the_first_wins() {
    let a = app(workspace(Some("web"), false), false);
    let low = Rect { left: 0, top: 0, right: 200, bottom: 6 };
    let ext = extents();
    assert_eq!(a.workspace_at_x(42, 34, &low, &ext), Ok(Some(0)));
    assert_eq!(a.workspace_at_x(42, 35, &low, &ext), Ok(Some(1)));
    let tall = Rect { left: 0, top: 0, right: 200, bottom: 12 };
    // bar 2, paddings 1 (focused) and 2: workspace 0 ends at 37, workspace 1 starts at 40
    assert_eq!(a.workspace_at_x(42, 37, &tall, &ext), Ok(Some(0)));
    assert_eq!(a.workspace_at_x(42, 38, &tall, &ext), Ok(None));
    assert_eq!(a.workspace_at_x(42, 39, &tall, &ext), Ok(None));
    assert_eq!(a.workspace_at_x(42, 40, &tall, &ext), Ok(Some(1)));
}

#[test]
fn two_containers_with_the_last_index_still_fit() {
    let mut w = workspace(Some("web"), false);
    w.scrolling = true;
    w.container_count = 2;
    w.focused_container = usize::MAX - 1;
    let a = app(w, false);
    assert!(a.paint_fits(42, &CLIENT, None, &extents()));
    let p = plan(&a, true, None);
    // the focused box shows its position counted from one; the next box is blank
    assert_eq!(p.width, 198 + 20 + 52 + 44);
    assert_eq!(p.ops.len(), 6 + 2 + 1);
    assert_eq!(p.ops[7], DrawOp::Text { label: Label::Number(usize::MAX), rect: rect(218, 14, 270, 46), align: TextAlign::CenterMiddle });
    assert_eq!(p.ops[8], DrawOp::RoundBox { rect: rect(270, 16, 314, 44), color: colors().get_color_key(), radius: Size { cx: 10, cy: 10 } });
    let mut last = workspace(Some("web"), false);
    last.scrolling = true;
    last.container_count = 2;
    last.focused_container = usize::MAX;
    assert!(!app(last, false).paint_fits(42, &CLIENT, None, &extents()));
}
