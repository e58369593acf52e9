use riimote::supervisor::{find_wiimote, is_wiimote_name, start, step, Action, Event, Phase};

#[test]
fn name_match() {
    assert!(is_wiimote_name(&"Nintendo RVL-CNT-01".to_string()));
    assert!(!is_wiimote_name(&"Nintendo RVL-CNT-02".to_string()));
    assert!(!is_wiimote_name(&String::new()));
}

#[test]
fn find_first_known_wiimote() {
    let names = vec![
        None,
        Some("keyboard".to_string()),
        Some("Nintendo RVL-CNT-01".to_string()),
        Some("Nintendo RVL-CNT-01".to_string()),
    ];
    assert_eq!(find_wiimote(&names), Some(2));
    assert_eq!(find_wiimote(&names[..2].to_vec()), None);
    assert_eq!(find_wiimote(&Vec::new()), None);
}

#[test]
fn known_device_then_connect_with_retry() {
    let (p, a) = start();
    assert_eq!((p, a), (Phase::Unresolved, Action::ListKnown));
    let (p, a) = step(p, Event::KnownListed { found: true });
    assert_eq!(a, Action::QueryLink { stop_discovery: false });
    let (p, a) = step(p, Event::LinkState { connected: false });
    assert_eq!((p, a), (Phase::Connecting, Action::Connect));
    let (p, a) = step(p, Event::ConnectFailed);
    assert_eq!((p, a), (Phase::RetryWait, Action::Wait { ms: 1000 }));
    let (p, a) = step(p, Event::Waited);
    assert_eq!((p, a), (Phase::Connecting, Action::Connect));
    let (p, a) = step(p, Event::ConnectSucceeded);
    assert_eq!((p, a), (Phase::Connected, Action::Wait { ms: 1000 }));
    let (p, a) = step(p, Event::Waited);
    assert_eq!((p, a), (Phase::Running, Action::RunSession));
    let (p, a) = step(p, Event::SessionEnded { completed: false });
    assert_eq!((p, a), (Phase::Disconnected, Action::Wait { ms: 1000 }));
    let (p, a) = step(p, Event::Waited);
    assert_eq!((p, a), (Phase::Resolved, Action::QueryLink { stop_discovery: false }));
    let (p, a) = step(p, Event::LinkState { connected: true });
    assert_eq!((p, a), (Phase::Connected, Action::Wait { ms: 1000 }));
    let (p, _) = step(p, Event::Waited);
    let (p, a) = step(p, Event::SessionEnded { completed: true });
    assert_eq!((p, a), (Phase::Done, Action::Finish));
}

#[test]
fn discovery_until_found() {
    let (p, _) = start();
    let (p, a) = step(p, Event::KnownListed { found: false });
    assert_eq!((p, a), (Phase::Discovering, Action::StartDiscovery));
    let (p, a) = step(p, Event::Discovered { matches: false });
    assert_eq!((p, a), (Phase::Discovering, Action::NextEvent));
    let (p, a) = step(p, Event::Discovered { matches: true });
    assert_eq!((p, a), (Phase::Resolved, Action::QueryLink { stop_discovery: true }));
}

#[test]
fn discovery_exhausted_aborts() {
    let (p, a) = step(Phase::Discovering, Event::StreamEnded);
    assert_eq!((p, a), (Phase::Exhausted, Action::Abort));
}

#[test]
fn stray_events_are_ignored() {
    assert_eq!(step(Phase::Running, Event::Waited), (Phase::Running, Action::Ignore));
    assert_eq!(step(Phase::Done, Event::ConnectFailed), (Phase::Done, Action::Ignore));
    assert_eq!(step(Phase::Unresolved, Event::StreamEnded), (Phase::Unresolved, Action::Ignore));
}
