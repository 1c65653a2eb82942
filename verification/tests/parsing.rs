use hyde_ipc::dispatch::{DispatchType, build_dispatch_cmd, parse_dispatcher};
use hyde_ipc::errors::ParseError;
use hyde_ipc::events::EventType;
use hyde_ipc::events::GroupEventType;
use hyde_ipc::events::WindowEventType;
use hyde_ipc::events::WorkspaceEventType;
use hyde_ipc::events::should_log_event;
use hyde_ipc::flags::Dispatch;
use hyde_ipc::flags::ResizeCmd;
use hyde_ipc::flags::WindowId;
use hyde_ipc::parsers::Corner;
use hyde_ipc::parsers::CycleDirection;
use hyde_ipc::parsers::Direction;
use hyde_ipc::parsers::FullscreenType;
use hyde_ipc::parsers::WindowMatcher;
use hyde_ipc::parsers::WindowTarget;
use hyde_ipc::parsers::WorkspaceSpecifier;
use hyde_ipc::parsers::parse_corner;
use hyde_ipc::parsers::parse_cycle_direction;
use hyde_ipc::parsers::parse_direction;
use hyde_ipc::parsers::parse_fullscreen_type;
use hyde_ipc::parsers::parse_window_matcher;
use hyde_ipc::parsers::parse_window_target;
use hyde_ipc::parsers::parse_workspace_specifier;

fn strings(args: &[&str]) -> Vec<String> {
    args.iter().map(|s| s.to_string()).collect()
}

#[test]
fn window_matcher_prefixes() {
    assert_eq!(
        parse_window_matcher("class:firefox"),
        Ok(WindowMatcher::ClassPattern("firefox".to_string()))
    );
    assert_eq!(
        parse_window_matcher("title:Terminal"),
        Ok(WindowMatcher::TitlePattern("Terminal".to_string()))
    );
    assert_eq!(parse_window_matcher("pid:1234"), Ok(WindowMatcher::ProcessId(1234)));
    assert_eq!(
        parse_window_matcher("address:0x5934277460f0"),
        Ok(WindowMatcher::Address("0x5934277460f0".to_string()))
    );
}

#[test]
fn window_matcher_unprefixed_is_class() {
    assert_eq!(
        parse_window_matcher("kitty"),
        Ok(WindowMatcher::ClassPattern("kitty".to_string()))
    );
}

#[test]
fn window_matcher_bad_pid() {
    assert_eq!(parse_window_matcher("pid:notanumber"), Err(ParseError::InvalidPid));
    assert_eq!(parse_window_matcher("pid:-3"), Err(ParseError::InvalidPid));
    assert_eq!(parse_window_matcher("pid:4294967296"), Err(ParseError::InvalidPid));
}

#[test]
fn window_matcher_round_trip() {
    let cases = vec![
        WindowMatcher::ClassPattern("chrome".to_string()),
        WindowMatcher::TitlePattern("New Tab".to_string()),
        WindowMatcher::ProcessId(0),
        WindowMatcher::ProcessId(4294967295),
        WindowMatcher::Address("abcd".to_string()),
        WindowMatcher::ClassPattern("".to_string()),
    ];
    for m in cases {
        let s = m.to_canonical_string();
        assert_eq!(parse_window_matcher(s.as_str()), Ok(m));
    }
}

#[test]
fn matcher_canonical_strings() {
    assert_eq!(
        WindowMatcher::ProcessId(123).to_canonical_string(),
        "pid:123".to_string()
    );
    assert_eq!(
        WindowMatcher::ClassPattern("foo".to_string()).to_canonical_string(),
        "class:foo".to_string()
    );
}

#[test]
fn workspace_specifiers() {
    assert_eq!(parse_workspace_specifier("left:2"), Ok(WorkspaceSpecifier::RelativeOffset(-2)));
    assert_eq!(parse_workspace_specifier("3"), Ok(WorkspaceSpecifier::AbsoluteId(3)));
    assert_eq!(
        parse_workspace_specifier("name:work"),
        Ok(WorkspaceSpecifier::NamedWorkspace("work".to_string()))
    );
    assert_eq!(parse_workspace_specifier("right:4"), Ok(WorkspaceSpecifier::RelativeOffset(4)));
    assert_eq!(parse_workspace_specifier("previous"), Ok(WorkspaceSpecifier::Previous));
    assert_eq!(parse_workspace_specifier("empty"), Ok(WorkspaceSpecifier::EmptySpecial));
    assert_eq!(parse_workspace_specifier("0"), Ok(WorkspaceSpecifier::AbsoluteId(0)));
    assert_eq!(parse_workspace_specifier("-5"), Ok(WorkspaceSpecifier::AbsoluteId(-5)));
}

#[test]
fn workspace_specifier_errors() {
    assert_eq!(
        parse_workspace_specifier("nowhere"),
        Err(ParseError::UnknownWorkspaceIdentifier("nowhere".to_string()))
    );
    assert_eq!(
        parse_workspace_specifier("right:x"),
        Err(ParseError::InvalidWorkspaceOffset("x".to_string()))
    );
    assert_eq!(
        parse_workspace_specifier("left:-2147483648"),
        Err(ParseError::InvalidWorkspaceOffset("-2147483648".to_string()))
    );
}

#[test]
fn workspace_round_trip() {
    let cases = vec![
        WorkspaceSpecifier::AbsoluteId(7),
        WorkspaceSpecifier::AbsoluteId(-7),
        WorkspaceSpecifier::RelativeOffset(2),
        WorkspaceSpecifier::RelativeOffset(-2),
        WorkspaceSpecifier::RelativeOffset(i32::MIN),
        WorkspaceSpecifier::Previous,
        WorkspaceSpecifier::EmptySpecial,
        WorkspaceSpecifier::NamedWorkspace("mail".to_string()),
    ];
    for w in cases {
        let s = w.to_canonical_string();
        assert_eq!(parse_workspace_specifier(s.as_str()), Ok(w));
    }
}

#[test]
fn directions_and_corners() {
    assert_eq!(parse_direction("up"), Ok(Direction::Up));
    assert_eq!(parse_direction("DOWN"), Ok(Direction::Down));
    assert_eq!(parse_direction("Left"), Ok(Direction::Left));
    assert_eq!(parse_direction("right"), Ok(Direction::Right));
    assert_eq!(
        parse_direction("sideways"),
        Err(ParseError::UnknownDirection("sideways".to_string()))
    );
    assert_eq!(parse_corner("TopLeft"), Ok(Corner::TopLeft));
    assert_eq!(parse_corner("bottomright"), Ok(Corner::BottomRight));
    assert_eq!(parse_corner("middle"), Err(ParseError::UnknownCorner("middle".to_string())));
    assert_eq!(parse_fullscreen_type("Maximize"), Ok(FullscreenType::Maximize));
    assert_eq!(parse_fullscreen_type("real"), Ok(FullscreenType::Real));
    assert_eq!(
        parse_fullscreen_type("huge"),
        Err(ParseError::UnknownFullscreenType("huge".to_string()))
    );
    assert_eq!(parse_cycle_direction("Next"), Ok(CycleDirection::Next));
    assert_eq!(parse_cycle_direction("previous"), Ok(CycleDirection::Previous));
    assert_eq!(
        parse_cycle_direction("backwards"),
        Err(ParseError::UnknownCycleDirection("backwards".to_string()))
    );
}

#[test]
fn window_targets() {
    assert_eq!(
        parse_window_target("mon:DP-1"),
        Ok(WindowTarget::MonitorName("DP-1".to_string()))
    );
    assert_eq!(parse_window_target("2"), Ok(WindowTarget::MonitorId(2)));
    assert_eq!(parse_window_target("Current"), Ok(WindowTarget::MonitorCurrent));
    assert_eq!(parse_window_target("dir:up"), Ok(WindowTarget::Direction(Direction::Up)));
    assert_eq!(parse_window_target("DIR:Left"), Ok(WindowTarget::Direction(Direction::Left)));
    assert_eq!(
        parse_window_target("elsewhere"),
        Err(ParseError::UnknownWindowTarget("elsewhere".to_string()))
    );
}

#[test]
fn resize_active_arguments() {
    assert_eq!(
        build_dispatch_cmd("resize-active", &strings(&["exact", "800", "600"])),
        Ok(DispatchType::ResizeActive(ResizeCmd::Exact { width: 800, height: 600 }))
    );
    assert_eq!(
        build_dispatch_cmd("resize-active", &strings(&["-10", "5"])),
        Ok(DispatchType::ResizeActive(ResizeCmd::Delta { dx: -10, dy: 5 }))
    );
    assert!(build_dispatch_cmd("resize-active", &strings(&[])).is_err());
    assert_eq!(
        build_dispatch_cmd("resize-active", &strings(&["exact", "-1", "600"])),
        Err(ParseError::InvalidArgument { index: 1, raw_value: "-1".to_string() })
    );
    assert_eq!(
        build_dispatch_cmd("resize-active", &strings(&["ten", "5"])),
        Err(ParseError::InvalidArgument { index: 0, raw_value: "ten".to_string() })
    );
}

#[test]
fn numeral_grammar() {
    assert_eq!(
        build_dispatch_cmd("move-cursor", &strings(&["+5", "007"])),
        Ok(DispatchType::MoveCursor(5, 7))
    );
    assert_eq!(
        build_dispatch_cmd("move-cursor", &strings(&["9223372036854775808", "0"])),
        Err(ParseError::InvalidArgument { index: 0, raw_value: "9223372036854775808".to_string() })
    );
    assert_eq!(
        build_dispatch_cmd("move-cursor", &strings(&["-9223372036854775808", "0"])),
        Ok(DispatchType::MoveCursor(i64::MIN, 0))
    );
    assert_eq!(
        build_dispatch_cmd("move-cursor", &strings(&["", "0"])),
        Err(ParseError::InvalidArgument { index: 0, raw_value: "".to_string() })
    );
}

#[test]
fn dispatcher_name_normalization() {
    assert_eq!(
        build_dispatch_cmd("Kill-Active_Window", &strings(&[])),
        Ok(DispatchType::KillActiveWindow)
    );
    assert_eq!(
        build_dispatch_cmd("KILLACTIVEWINDOW", &strings(&[])),
        Ok(DispatchType::KillActiveWindow)
    );
    assert_eq!(
        build_dispatch_cmd("no-such-thing", &strings(&[])),
        Err(ParseError::UnknownDispatcher("no-such-thing".to_string()))
    );
}

#[test]
fn exec_joins_arguments() {
    assert_eq!(
        build_dispatch_cmd("exec", &strings(&["kitty", "--single-instance"])),
        Ok(DispatchType::Exec("kitty --single-instance".to_string()))
    );
    assert_eq!(build_dispatch_cmd("exec", &strings(&[])), Ok(DispatchType::Exec("".to_string())));
}

#[test]
fn optional_and_default_arguments() {
    assert_eq!(
        build_dispatch_cmd("toggle-floating", &strings(&[])),
        Ok(DispatchType::ToggleFloating(None))
    );
    assert_eq!(
        build_dispatch_cmd("toggle-floating", &strings(&[""])),
        Ok(DispatchType::ToggleFloating(None))
    );
    assert_eq!(
        build_dispatch_cmd("toggle-floating", &strings(&["class:kitty"])),
        Ok(DispatchType::ToggleFloating(Some(WindowMatcher::ClassPattern("kitty".to_string()))))
    );
    assert_eq!(
        build_dispatch_cmd("cycle-window", &strings(&[])),
        Ok(DispatchType::CycleWindow(CycleDirection::Next))
    );
    assert_eq!(
        build_dispatch_cmd("cycle-window", &strings(&[""])),
        Ok(DispatchType::CycleWindow(CycleDirection::Next))
    );
    assert_eq!(
        build_dispatch_cmd("cycle-window", &strings(&["sideways"])),
        Err(ParseError::UnknownCycleDirection("sideways".to_string()))
    );
    assert_eq!(
        build_dispatch_cmd("toggle-fullscreen", &strings(&[])),
        Ok(DispatchType::ToggleFullscreen(FullscreenType::NoParam))
    );
    assert_eq!(
        build_dispatch_cmd("move-cursor", &strings(&["10", "-20"])),
        Ok(DispatchType::MoveCursor(10, -20))
    );
    assert_eq!(
        build_dispatch_cmd("move-cursor", &strings(&["10"])),
        Err(ParseError::MissingArgument { name: "x and y".to_string() })
    );
    assert_eq!(
        build_dispatch_cmd("move-cursor", &strings(&["10", "abc"])),
        Err(ParseError::InvalidArgument { index: 1, raw_value: "abc".to_string() })
    );
    assert_eq!(
        build_dispatch_cmd("move-focus", &strings(&[])),
        Err(ParseError::MissingArgument { name: "direction".to_string() })
    );
}

#[test]
fn resize_window_pixel_arguments() {
    assert_eq!(
        build_dispatch_cmd("resize-window-pixel", &strings(&["10", "20", "class:kitty"])),
        Ok(DispatchType::ResizeWindowPixel(
            ResizeCmd::Delta { dx: 10, dy: 20 },
            WindowMatcher::ClassPattern("kitty".to_string())
        ))
    );
    assert_eq!(
        build_dispatch_cmd("resize-window-pixel", &strings(&["exact", "1", "2", "pid:9"])),
        Ok(DispatchType::ResizeWindowPixel(
            ResizeCmd::Exact { width: 1, height: 2 },
            WindowMatcher::ProcessId(9)
        ))
    );
    assert!(build_dispatch_cmd("resize-window-pixel", &strings(&["10", "20"])).is_err());
}

#[test]
fn dispatch_command_round_trip() {
    let cases = vec![
        DispatchType::Exec("firefox --new-window".to_string()),
        DispatchType::KillActiveWindow,
        DispatchType::ToggleFloating(None),
        DispatchType::ToggleFloating(Some(WindowMatcher::TitlePattern("Editor".to_string()))),
        DispatchType::MoveCursorToCorner(Corner::BottomLeft),
        DispatchType::MoveCursor(-3, 99),
        DispatchType::MoveCursor(i64::MIN, i64::MAX),
        DispatchType::ResizeActive(ResizeCmd::Delta { dx: i16::MIN, dy: i16::MAX }),
        DispatchType::ToggleFullscreen(FullscreenType::Maximize),
        DispatchType::MoveToWorkspace(WorkspaceSpecifier::AbsoluteId(5)),
        DispatchType::MoveToWorkspaceSilent(
            WorkspaceSpecifier::NamedWorkspace("mail".to_string()),
            Some(WindowMatcher::ProcessId(42)),
        ),
        DispatchType::Workspace(WorkspaceSpecifier::RelativeOffset(-1)),
        DispatchType::CycleWindow(CycleDirection::Previous),
        DispatchType::MoveFocus(Direction::Right),
        DispatchType::SwapWindow(Direction::Down),
        DispatchType::FocusWindow(WindowMatcher::ClassPattern("kitty".to_string())),
        DispatchType::MoveWindow(WindowTarget::MonitorName("DP-1".to_string())),
        DispatchType::MoveWindow(WindowTarget::Direction(Direction::Up)),
        DispatchType::ToggleFakeFullscreen,
        DispatchType::Exit,
        DispatchType::ResizeActive(ResizeCmd::Delta { dx: -10, dy: 5 }),
        DispatchType::ResizeWindowPixel(
            ResizeCmd::Exact { width: 800, height: 600 },
            WindowMatcher::Address("0xdeadbeef".to_string()),
        ),
    ];
    for cmd in cases {
        let name = cmd.to_canonical_name();
        let args = cmd.to_canonical_args();
        assert_eq!(build_dispatch_cmd(name.as_str(), &args), Ok(cmd));
    }
}

#[test]
fn parse_dispatcher_from_cli() {
    let cmd = Dispatch::MoveFocus { direction: "Up".to_string() };
    assert_eq!(parse_dispatcher(&cmd), Ok(DispatchType::MoveFocus(Direction::Up)));
    let cmd = Dispatch::FocusWindow {
        window: WindowId { class: Some("kitty".to_string()), title: None, pid: None, address: None },
    };
    assert_eq!(
        parse_dispatcher(&cmd),
        Ok(DispatchType::FocusWindow(WindowMatcher::ClassPattern("kitty".to_string())))
    );
    let cmd = Dispatch::FocusWindow {
        window: WindowId { class: None, title: None, pid: None, address: None },
    };
    assert_eq!(
        parse_dispatcher(&cmd),
        Err(ParseError::MissingArgument { name: "window".to_string() })
    );
    let cmd = Dispatch::Exec { command: vec!["echo".to_string(), "hi".to_string()] };
    assert_eq!(parse_dispatcher(&cmd), Ok(DispatchType::Exec("echo hi".to_string())));
}

#[test]
fn window_id_identifier_strings() {
    let id = WindowId { class: Some("kitty".to_string()), title: None, pid: None, address: None };
    assert_eq!(id.to_identifier_string(), Some("class:kitty".to_string()));
    let id = WindowId { class: None, title: Some("Tab".to_string()), pid: None, address: None };
    assert_eq!(id.to_identifier_string(), Some("title:Tab".to_string()));
    let id = WindowId { class: None, title: None, pid: Some(77), address: None };
    assert_eq!(id.to_identifier_string(), Some("pid:77".to_string()));
    let id = WindowId { class: None, title: None, pid: None, address: Some("0xa".to_string()) };
    assert_eq!(id.to_identifier_string(), Some("address:0xa".to_string()));
    let id = WindowId { class: None, title: None, pid: None, address: None };
    assert_eq!(id.to_identifier_string(), None);
}

#[test]
fn event_types_from_names() {
    assert_eq!(
        EventType::from_event_and_subtype("window", Some("opened")),
        Ok(EventType::Window(WindowEventType::Opened))
    );
    assert_eq!(
        EventType::from_event_and_subtype("Window", Some("ACTIVE")),
        Ok(EventType::Window(WindowEventType::Active))
    );
    assert_eq!(
        EventType::from_event_and_subtype("workspace", Some("changed")),
        Ok(EventType::Workspace(WorkspaceEventType::Changed))
    );
    assert_eq!(
        EventType::from_event_and_subtype("group", Some("moved-in")),
        Ok(EventType::Group(GroupEventType::MovedIn))
    );
    assert_eq!(EventType::from_event_and_subtype("monitor", None), Ok(EventType::Monitor));
    assert_eq!(EventType::from_event_and_subtype("config", None), Ok(EventType::Config));
    assert_eq!(
        EventType::from_event_and_subtype("window", None),
        Err(ParseError::MissingSubtype("window".to_string()))
    );
    assert_eq!(
        EventType::from_event_and_subtype("window", Some("exploded")),
        Err(ParseError::UnknownSubtype("exploded".to_string()))
    );
    assert_eq!(
        EventType::from_event_and_subtype("storm", None),
        Err(ParseError::UnknownEventType("storm".to_string()))
    );
}

#[test]
fn event_labels() {
    assert_eq!(
        EventType::Window(WindowEventType::Opened).label(),
        "window opened".to_string()
    );
    assert_eq!(
        EventType::Group(GroupEventType::MovedOut).label(),
        "group moved-out".to_string()
    );
    assert_eq!(EventType::Config.label(), "config".to_string());
}

#[test]
fn event_log_filtering() {
    assert!(should_log_event("window", &None));
    assert!(should_log_event("window", &Some("".to_string())));
    assert!(should_log_event("window", &Some("WIN".to_string())));
    assert!(should_log_event("workspace", &Some("space".to_string())));
    assert!(!should_log_event("monitor", &Some("window".to_string())));
}

#[test]
fn error_messages() {
    assert_eq!(
        ParseError::UnknownDispatcher("zap".to_string()).message(),
        "Unknown dispatcher: zap".to_string()
    );
    assert_eq!(ParseError::InvalidPid.message(), "Invalid PID".to_string());
}
