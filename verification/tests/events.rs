use komoswitch::application::handlers::{handle_message, MessageKind};
use komoswitch::application::{Application, CommandAction, Placement, ID_EXIT};
use komoswitch::geometry::{MonitorRect, Rect};
use komoswitch::komo::{next_listen_step, ListenStep, ReadOutcome, SOCK_NAME, SOCK_NAME_DEBUG};
use komoswitch::msgs::UpdateState;
use komoswitch::settings::{ColorSettings, Settings, UiColor};
use komoswitch::state::{BarState, CurrentState, MonitorInfo, WorkspaceInfo, WorkspaceRing};

fn monitor(id: isize, left: i32) -> MonitorInfo {
    MonitorInfo {
        id,
        name: format!("DISPLAY{}", id),
        size: MonitorRect { left, top: 0, right: 1920, bottom: 1080 },
        workspaces: WorkspaceRing { elements: vec![], focused: 0 },
    }
}

fn app(monitors: Vec<MonitorInfo>) -> Application {
    let colors = ColorSettings::new(UiColor { r: 0, g: 0, b: 0 }, UiColor { r: 1, g: 2, b: 3 });
    Application::new(BarState { monitors, is_paused: false }, Settings::new(colors))
}

#[test]
fn message_numbers() {
    assert_eq!(UpdateState::ID, 0x8001);
    assert_eq!(handle_message(0x0001), MessageKind::Create);
    assert_eq!(handle_message(0x0002), MessageKind::Destroy);
    assert_eq!(handle_message(0x000F), MessageKind::Paint);
    assert_eq!(handle_message(0x001A), MessageKind::SettingChanged);
    assert_eq!(handle_message(0x0081), MessageKind::NcCreate);
    assert_eq!(handle_message(0x0082), MessageKind::NcDestroy);
    assert_eq!(handle_message(0x0111), MessageKind::Command);
    assert_eq!(handle_message(0x0201), MessageKind::LButtonDown);
    assert_eq!(handle_message(0x0204), MessageKind::RButtonDown);
    assert_eq!(handle_message(0x8001), MessageKind::UpdateState);
    assert_eq!(handle_message(0x8000), MessageKind::Other);
    assert_eq!(handle_message(0x0010), MessageKind::Other);
}

#[test]
fn quit_closes_every_window() {
    let mut a = app(vec![monitor(1, 0)]);
    a.add_window(1);
    a.attach_hwnd(10);
    a.add_window(1);
    a.attach_hwnd(11);
    match a.handle_command(ID_EXIT) {
        CommandAction::CloseWindows(v) => assert_eq!(v, vec![10, 11]),
        CommandAction::Default => panic!("quit must close the windows"),
    }
    assert!(matches!(a.handle_command(1000), CommandAction::Default));
}

#[test]
fn taskbar_classes() {
    assert!(Application::is_taskbar_class(&"Shell_TrayWnd".to_string()));
    assert!(Application::is_taskbar_class(&"Shell_SecondaryTrayWnd".to_string()));
    assert!(!Application::is_taskbar_class(&"Shell_TrayWn".to_string()));
    assert!(!Application::is_taskbar_class(&String::new()));
}

#[test]
fn windows_go_on_the_taskbar_of_their_monitor() {
    let a = app(vec![monitor(1, 0), monitor(2, 1920), monitor(3, 3840)]);
    let taskbars = vec![
        Rect { left: 1920, top: 1032, right: 3840, bottom: 1080 },
        Rect { left: 0, top: 1032, right: 1920, bottom: 1080 },
        Rect { left: 0, top: 1000, right: 1920, bottom: 1080 },
    ];
    let p = a.prepare(&taskbars);
    assert_eq!(
        p,
        vec![Placement { monitor_id: 1, taskbar: 1 }, Placement { monitor_id: 2, taskbar: 0 }]
    );
}

#[test]
fn no_taskbar_no_window() {
    let a = app(vec![monitor(1, 0)]);
    assert!(a.prepare(&vec![]).is_empty());
    assert!(a.prepare(&vec![Rect { left: -10, top: 1032, right: 1920, bottom: 1080 }]).is_empty());
}

#[test]
fn current_state_of_workspace() {
    let w = WorkspaceInfo {
        name: None,
        is_empty: false,
        scrolling: false,
        container_count: 2,
        focused_container: 0,
        maximized_hwnd: Some(5),
        monocle_hwnds: Some(vec![6]),
    };
    assert_eq!(w.current_state(None), CurrentState::Normal);
    assert_eq!(w.current_state(Some(5)), CurrentState::Maximized);
    assert_eq!(w.current_state(Some(6)), CurrentState::Monocle);
    assert_eq!(w.current_state(Some(7)), CurrentState::Normal);
}

#[test]
fn subscription_closed_on_empty_read() {
    assert!(matches!(next_listen_step(ReadOutcome::Bytes(0), vec![]), ListenStep::Reconnect));
    assert!(matches!(next_listen_step(ReadOutcome::Bytes(0), b"{}".to_vec()), ListenStep::Reconnect));
}

#[test]
fn subscription_text_is_parsed() {
    match next_listen_step(ReadOutcome::Bytes(12), b"{\"event\":1}".to_vec()) {
        ListenStep::Parse(s) => assert_eq!(s, "{\"event\":1}"),
        other => panic!("unexpected {:?}", other),
    }
    match next_listen_step(ReadOutcome::Failed, "héllo".as_bytes().to_vec()) {
        ListenStep::Parse(s) => assert_eq!(s, "héllo"),
        other => panic!("unexpected {:?}", other),
    }
}

#[test]
fn subscription_bytes_that_are_no_text_are_skipped() {
    assert!(matches!(next_listen_step(ReadOutcome::Bytes(2), vec![0xff, 0xfe]), ListenStep::Skip));
    assert!(matches!(next_listen_step(ReadOutcome::Failed, vec![0xc3]), ListenStep::Skip));
}

#[test]
fn socket_names() {
    assert_eq!(SOCK_NAME, "komorebi-switcher.sock");
    assert_eq!(SOCK_NAME_DEBUG, "komorebi-switcher-debug.sock");
}
