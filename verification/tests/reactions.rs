use hyde_ipc::dispatch::DispatchType;
use hyde_ipc::events::Event;
use hyde_ipc::events::EventType;
use hyde_ipc::events::WindowEventType;
use hyde_ipc::events::WindowInfo;
use hyde_ipc::events::WorkspaceEventType;
use hyde_ipc::manager::ReactionManager;
use hyde_ipc::parsers::WindowMatcher;
use hyde_ipc::parsers::is_window_match;
use hyde_ipc::reaction::Reaction;
use hyde_ipc::reaction::TriggerResult;
use hyde_ipc::service::ServiceError;

fn exec(cmd: &str) -> DispatchType {
    DispatchType::Exec(cmd.to_string())
}

#[test]
fn no_filter_matches_everything() {
    assert!(is_window_match(None, "any-class", "any title"));
    assert!(is_window_match(None, "", ""));
}

#[test]
fn class_pattern_is_containment() {
    let f = WindowMatcher::ClassPattern("foo".to_string());
    assert!(is_window_match(Some(&f), "myfoo123", "anything"));
    assert!(!is_window_match(Some(&f), "bar", "anything"));
}

#[test]
fn title_pattern_checks_title_only() {
    let f = WindowMatcher::TitlePattern("Tab".to_string());
    assert!(is_window_match(Some(&f), "whatever", "New Tab"));
    assert!(!is_window_match(Some(&f), "Tab", "no match here"));
}

#[test]
fn pid_and_address_filters_never_match_events() {
    assert!(!is_window_match(Some(&WindowMatcher::ProcessId(1)), "a", "b"));
    assert!(!is_window_match(Some(&WindowMatcher::Address("0xa".to_string())), "a", "b"));
}

#[test]
fn limited_reaction_fires_exactly_n_times() {
    let mut r = Reaction::new(EventType::Config, vec![exec("notify")], None, Some(3));
    let mut fired = 0;
    let mut suppressed = 0;
    for _ in 0..7 {
        match r.try_trigger() {
            TriggerResult::Fired => fired += 1,
            TriggerResult::SuppressedByLimit => suppressed += 1,
            TriggerResult::NoDispatchers => panic!("chain is not empty"),
        }
    }
    assert_eq!(fired, 3);
    assert_eq!(suppressed, 4);
    assert_eq!(r.try_trigger(), TriggerResult::SuppressedByLimit);
}

#[test]
fn unlimited_reaction_always_fires() {
    let mut r = Reaction::new(EventType::Config, vec![exec("notify")], None, None);
    for _ in 0..100 {
        assert_eq!(r.try_trigger(), TriggerResult::Fired);
    }
    let mut r = Reaction::new(EventType::Config, vec![exec("notify")], None, Some(0));
    for _ in 0..100 {
        assert_eq!(r.try_trigger(), TriggerResult::Fired);
    }
}

#[test]
fn empty_chain_reports_no_dispatchers() {
    let mut r = Reaction::new(EventType::Config, vec![], None, None);
    for _ in 0..5 {
        assert_eq!(r.try_trigger(), TriggerResult::NoDispatchers);
    }
}

#[test]
fn empty_chain_dispatches_nothing_through_manager() {
    let mut m = ReactionManager::new();
    m.add_reaction(Reaction::new(EventType::Config, vec![], None, None));
    let cmds = m.handle_event(&Event { event_type: EventType::Config, window: None });
    assert!(cmds.is_empty());
}

#[test]
fn matching_reaction_fires_in_registration_order() {
    let mut m = ReactionManager::new();
    m.add_reaction(Reaction::new(
        EventType::Window(WindowEventType::Opened),
        vec![exec("firefox")],
        Some(WindowMatcher::ClassPattern("chrome".to_string())),
        Some(10),
    ));
    m.add_reaction(Reaction::new(
        EventType::Window(WindowEventType::Opened),
        vec![exec("kitty")],
        Some(WindowMatcher::ClassPattern("alacritty".to_string())),
        Some(10),
    ));
    m.add_reaction(Reaction::new(
        EventType::Window(WindowEventType::Opened),
        vec![exec("first"), exec("second")],
        None,
        Some(10),
    ));
    let cmds = m.handle_event(&Event {
        event_type: EventType::Window(WindowEventType::Opened),
        window: Some(WindowInfo {
            class: "chrome-browser".to_string(),
            title: "New Tab".to_string(),
        }),
    });
    assert_eq!(cmds, vec![exec("firefox"), exec("first"), exec("second")]);
    assert_eq!(m.reactions[0].trigger_counter, 1);
    assert_eq!(m.reactions[1].trigger_counter, 0);
    assert_eq!(m.reactions[2].trigger_counter, 1);
}

#[test]
fn event_type_must_match() {
    let mut m = ReactionManager::new();
    m.add_reaction(Reaction::new(
        EventType::Workspace(WorkspaceEventType::Changed),
        vec![exec("ws")],
        None,
        None,
    ));
    let cmds = m.handle_event(&Event {
        event_type: EventType::Window(WindowEventType::Opened),
        window: Some(WindowInfo { class: "c".to_string(), title: "t".to_string() }),
    });
    assert!(cmds.is_empty());
    let cmds = m.handle_event(&Event {
        event_type: EventType::Workspace(WorkspaceEventType::Changed),
        window: None,
    });
    assert_eq!(cmds, vec![exec("ws")]);
}

#[test]
fn active_event_without_window() {
    let mut m = ReactionManager::new();
    m.add_reaction(Reaction::new(
        EventType::Window(WindowEventType::Active),
        vec![exec("filtered")],
        Some(WindowMatcher::ClassPattern("kitty".to_string())),
        None,
    ));
    m.add_reaction(Reaction::new(
        EventType::Window(WindowEventType::Active),
        vec![exec("unfiltered")],
        None,
        None,
    ));
    let cmds = m.handle_event(&Event {
        event_type: EventType::Window(WindowEventType::Active),
        window: None,
    });
    assert_eq!(cmds, vec![exec("unfiltered")]);
}

#[test]
fn filters_ignored_for_closed_and_moved() {
    let mut m = ReactionManager::new();
    m.add_reaction(Reaction::new(
        EventType::Window(WindowEventType::Closed),
        vec![exec("closed")],
        Some(WindowMatcher::ClassPattern("never-matches".to_string())),
        None,
    ));
    let cmds = m.handle_event(&Event {
        event_type: EventType::Window(WindowEventType::Closed),
        window: None,
    });
    assert_eq!(cmds, vec![exec("closed")]);
}

#[test]
fn suppressed_reaction_stays_suppressed_through_manager() {
    let mut m = ReactionManager::new();
    m.add_reaction(Reaction::new(EventType::Config, vec![exec("once")], None, Some(1)));
    let ev = Event { event_type: EventType::Config, window: None };
    assert_eq!(m.handle_event(&ev), vec![exec("once")]);
    assert!(m.handle_event(&ev).is_empty());
    assert!(m.handle_event(&ev).is_empty());
}

#[test]
fn service_error_messages() {
    assert_eq!(
        ServiceError::Install("denied".to_string()).message(),
        "Failed to install service: denied".to_string()
    );
    assert_eq!(
        ServiceError::Io("broken pipe".to_string()).message(),
        "IO error: broken pipe".to_string()
    );
}
