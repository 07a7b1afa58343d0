use readtext::watch::{
    contains_path, Received, WatchAction, WatchEvent, WatchManager, WatchPhase, WatchSession,
    DEBOUNCE_MS, POLL_INTERVAL_MS,
};

fn polling(target: &str) -> WatchSession {
    let mut session = WatchSession::new(target.to_string());
    assert!(matches!(session.step(WatchEvent::Begin), WatchAction::CreateWatcher));
    assert!(matches!(session.step(WatchEvent::Succeeded), WatchAction::WatchDirectory(_)));
    assert!(matches!(session.step(WatchEvent::Succeeded), WatchAction::ReadFlag));
    session
}

fn changed(paths: &[&str], is_modify: bool) -> WatchEvent {
    WatchEvent::Message(Received::Changed {
        paths: paths.iter().map(|p| p.to_string()).collect(),
        is_modify,
    })
}

#[test]
fn intervals_are_half_a_second_and_a_tenth() {
    assert_eq!(POLL_INTERVAL_MS, 500);
    assert_eq!(DEBOUNCE_MS, 100);
}

#[test]
fn session_watches_the_parent_directory() {
    let mut session = WatchSession::new("/docs/notes/a.md".to_string());
    assert_eq!(session.phase(), WatchPhase::Created);
    assert_eq!(session.target_path(), "/docs/notes/a.md");
    assert!(matches!(session.step(WatchEvent::Begin), WatchAction::CreateWatcher));
    match session.step(WatchEvent::Succeeded) {
        WatchAction::WatchDirectory(dir) => assert_eq!(dir, "/docs/notes"),
        other => panic!("unexpected action {:?}", other),
    }
    assert_eq!(session.phase(), WatchPhase::AwaitRegistration);
}

#[test]
fn failed_watcher_ends_the_session() {
    let mut session = WatchSession::new("/docs/a.md".to_string());
    session.step(WatchEvent::Begin);
    assert!(matches!(session.step(WatchEvent::Failed), WatchAction::Exit));
    assert_eq!(session.phase(), WatchPhase::Exited);
}

#[test]
fn target_without_parent_ends_the_session() {
    let mut session = WatchSession::new("/".to_string());
    session.step(WatchEvent::Begin);
    assert!(matches!(session.step(WatchEvent::Succeeded), WatchAction::Exit));
    assert_eq!(session.phase(), WatchPhase::Exited);
}

#[test]
fn failed_registration_ends_the_session() {
    let mut session = WatchSession::new("/gone/a.md".to_string());
    session.step(WatchEvent::Begin);
    session.step(WatchEvent::Succeeded);
    assert!(matches!(session.step(WatchEvent::Failed), WatchAction::Exit));
    assert_eq!(session.phase(), WatchPhase::Exited);
}

#[test]
fn set_flag_ends_the_session() {
    let mut session = polling("/docs/a.md");
    assert!(matches!(session.step(WatchEvent::Flag(true)), WatchAction::Exit));
    assert_eq!(session.phase(), WatchPhase::Exited);
}

#[test]
fn clear_flag_leads_to_a_bounded_wait() {
    let mut session = polling("/docs/a.md");
    match session.step(WatchEvent::Flag(false)) {
        WatchAction::Receive { timeout_ms } => assert_eq!(timeout_ms, 500),
        other => panic!("unexpected action {:?}", other),
    }
}

#[test]
fn modification_of_the_target_is_read_after_the_debounce_and_emitted() {
    let mut session = polling("/docs/a.md");
    session.step(WatchEvent::Flag(false));
    match session.step(changed(&["/docs/other.md", "/docs/a.md"], true)) {
        WatchAction::Sleep { ms } => assert_eq!(ms, 100),
        other => panic!("unexpected action {:?}", other),
    }
    match session.step(WatchEvent::Succeeded) {
        WatchAction::ReadFile(path) => assert_eq!(path, "/docs/a.md"),
        other => panic!("unexpected action {:?}", other),
    }
    match session.step(WatchEvent::Content(Some("# new text".to_string()))) {
        WatchAction::Emit(content) => assert_eq!(content, "# new text"),
        other => panic!("unexpected action {:?}", other),
    }
    assert!(matches!(session.step(WatchEvent::Succeeded), WatchAction::ReadFlag));
    assert_eq!(session.phase(), WatchPhase::AwaitFlag);
}

#[test]
fn failed_read_skips_the_notification() {
    let mut session = polling("/docs/a.md");
    session.step(WatchEvent::Flag(false));
    session.step(changed(&["/docs/a.md"], true));
    session.step(WatchEvent::Succeeded);
    assert!(matches!(session.step(WatchEvent::Content(None)), WatchAction::ReadFlag));
    assert_eq!(session.phase(), WatchPhase::AwaitFlag);
}

#[test]
fn failed_emit_keeps_the_session_alive() {
    let mut session = polling("/docs/a.md");
    session.step(WatchEvent::Flag(false));
    session.step(changed(&["/docs/a.md"], true));
    session.step(WatchEvent::Succeeded);
    session.step(WatchEvent::Content(Some("x".to_string())));
    assert!(matches!(session.step(WatchEvent::Failed), WatchAction::ReadFlag));
}

#[test]
fn other_events_lead_back_to_the_flag() {
    for event in [
        changed(&["/docs/other.md"], true),
        changed(&["/docs/a.md"], false),
        changed(&[], true),
        WatchEvent::Message(Received::Faulted),
        WatchEvent::Message(Received::TimedOut),
    ] {
        let mut session = polling("/docs/a.md");
        session.step(WatchEvent::Flag(false));
        assert!(matches!(session.step(event), WatchAction::ReadFlag));
        assert_eq!(session.phase(), WatchPhase::AwaitFlag);
    }
}

#[test]
fn disconnected_channel_ends_the_session() {
    let mut session = polling("/docs/a.md");
    session.step(WatchEvent::Flag(false));
    assert!(matches!(
        session.step(WatchEvent::Message(Received::Disconnected)),
        WatchAction::Exit
    ));
    assert_eq!(session.phase(), WatchPhase::Exited);
}

#[test]
fn report_out_of_turn_ends_the_session() {
    let mut session = polling("/docs/a.md");
    assert!(matches!(session.step(WatchEvent::Succeeded), WatchAction::Exit));
    assert_eq!(session.phase(), WatchPhase::Exited);
    assert!(matches!(session.step(WatchEvent::Flag(false)), WatchAction::Exit));
    let mut fresh = WatchSession::new("/docs/a.md".to_string());
    assert!(matches!(fresh.step(WatchEvent::Flag(false)), WatchAction::Exit));
}

#[test]
fn paths_are_compared_by_their_components() {
    let paths = vec!["/docs//a.md".to_string(), "/x/y".to_string()];
    assert!(contains_path(&paths, "/docs/a.md"));
    assert!(contains_path(&paths, "/x/y/"));
    assert!(!contains_path(&paths, "/docs/A.md"));
    assert!(!contains_path(&paths, "/docs"));
    assert!(!contains_path(&Vec::new(), "/docs/a.md"));
}

#[test]
fn first_start_cancels_nothing() {
    let mut manager = WatchManager::new();
    assert_eq!(manager.current(), &None);
    let start = manager.start_watch("/docs/a.md".to_string());
    assert!(!start.cancel_previous);
    assert_eq!(start.session.target_path(), "/docs/a.md");
    assert_eq!(start.session.phase(), WatchPhase::Created);
    assert_eq!(manager.current(), &Some("/docs/a.md".to_string()));
}

#[test]
fn second_start_cancels_the_first_session() {
    let mut manager = WatchManager::new();
    let first = manager.start_watch("/docs/a.md".to_string());
    let second = manager.start_watch("/docs/b.md".to_string());
    assert!(!first.cancel_previous);
    assert!(second.cancel_previous);
    assert_eq!(manager.current(), &Some("/docs/b.md".to_string()));

    let mut old_flag = false;
    if second.cancel_previous {
        old_flag = true;
    }
    let mut old_session = first.session;
    old_session.step(WatchEvent::Begin);
    old_session.step(WatchEvent::Succeeded);
    old_session.step(WatchEvent::Succeeded);
    assert!(matches!(old_session.step(WatchEvent::Flag(old_flag)), WatchAction::Exit));

    let mut new_session = second.session;
    new_session.step(WatchEvent::Begin);
    new_session.step(WatchEvent::Succeeded);
    new_session.step(WatchEvent::Succeeded);
    assert!(matches!(new_session.step(WatchEvent::Flag(false)), WatchAction::Receive { .. }));
}

#[test]
fn restarting_the_same_file_still_replaces_the_session() {
    let mut manager = WatchManager::new();
    manager.start_watch("/docs/a.md".to_string());
    let again = manager.start_watch("/docs/a.md".to_string());
    assert!(again.cancel_previous);
    assert_eq!(manager.current(), &Some("/docs/a.md".to_string()));
}
