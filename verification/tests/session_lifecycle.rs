use std::time::Duration;

use watchsession::session::WatchSession;
use watchsession::WatchError;

#[test]
fn new_session_is_idle() {
    let s = WatchSession::new();
    assert!(!s.is_observing());
    assert!(s.root().is_none());
}

#[test]
fn teardown_without_observation_is_noop() {
    let mut s = WatchSession::new();
    let had = s.teardown();
    assert!(!had);
    assert!(!s.is_observing());
    let had_again = s.teardown();
    assert!(!had_again);
}

#[test]
fn empty_root_rejected() {
    let mut s = WatchSession::new();
    let r = s.begin_set_root("");
    assert_eq!(r, Err(WatchError::InvalidPath));
    assert!(!s.is_observing());
}

#[test]
fn whitespace_root_rejected() {
    let mut s = WatchSession::new();
    let r = s.begin_set_root("  \t\n  ");
    assert_eq!(r, Err(WatchError::InvalidPath));
    let r2 = s.finish_set_root("   ".to_string());
    assert!(matches!(r2, Err(WatchError::InvalidPath)));
}

#[test]
fn blank_root_leaves_observation_untouched() {
    let dir = tempfile::tempdir().expect("temp dir");
    let root = dir.path().to_str().expect("utf-8 path").to_string();

    let mut s = WatchSession::new();
    assert_eq!(s.begin_set_root(&root), Ok(false));
    let _rx = s.finish_set_root(root.clone()).expect("watch starts");
    assert!(s.is_observing());

    let r = s.begin_set_root(" ");
    assert_eq!(r, Err(WatchError::InvalidPath));
    assert!(s.is_observing());
    assert_eq!(s.root(), Some(root));
}

#[test]
fn missing_root_is_unwatchable() {
    let dir = tempfile::tempdir().expect("temp dir");
    let mut missing = dir.path().to_str().expect("utf-8 path").to_string();
    missing.push_str("/nowhere/at/all");

    let mut s = WatchSession::new();
    assert_eq!(s.begin_set_root(&missing), Ok(false));
    let r = s.finish_set_root(missing);
    match r {
        Err(WatchError::PathUnwatchable { detail }) => assert!(!detail.is_empty()),
        other => panic!("expected PathUnwatchable, got {:?}", other.err()),
    }
    assert!(!s.is_observing());
}

#[test]
fn same_root_twice_replaces_observation() {
    let dir = tempfile::tempdir().expect("temp dir");
    let root = dir.path().to_str().expect("utf-8 path").to_string();

    let mut s = WatchSession::new();
    assert_eq!(s.begin_set_root(&root), Ok(false));
    let rx_first = s.finish_set_root(root.clone()).expect("first watch starts");
    assert!(s.is_observing());

    // The second change must not error; its begin step reports that the
    // first observation existed and was stopped.
    assert_eq!(s.begin_set_root(&root), Ok(true));
    assert!(!s.is_observing());

    // The first observation's native handle is released: its notification
    // channel drains and disconnects instead of staying open.
    let deadline = std::time::Instant::now() + Duration::from_secs(10);
    loop {
        match rx_first.recv_timeout(Duration::from_millis(200)) {
            Err(std::sync::mpsc::RecvTimeoutError::Disconnected) => break,
            Err(std::sync::mpsc::RecvTimeoutError::Timeout) | Ok(_) => {
                assert!(
                    std::time::Instant::now() < deadline,
                    "first observation's channel never closed"
                );
            }
        }
    }

    let _rx_second = s.finish_set_root(root.clone()).expect("second watch starts");
    assert!(s.is_observing());
    assert_eq!(s.root(), Some(root));
}

#[test]
fn distinct_roots_never_overlap() {
    let dir_a = tempfile::tempdir().expect("temp dir");
    let dir_b = tempfile::tempdir().expect("temp dir");
    let dir_c = tempfile::tempdir().expect("temp dir");
    let roots = [
        dir_a.path().to_str().expect("utf-8 path").to_string(),
        dir_b.path().to_str().expect("utf-8 path").to_string(),
        dir_c.path().to_str().expect("utf-8 path").to_string(),
    ];

    let mut s = WatchSession::new();
    let mut expected_prior = false;
    for root in roots.iter() {
        // begin reports exactly one prior observation stopped per change,
        // and between the steps nothing is observed.
        assert_eq!(s.begin_set_root(root), Ok(expected_prior));
        assert!(!s.is_observing());
        let _rx = s.finish_set_root(root.clone()).expect("watch starts");
        assert!(s.is_observing());
        assert_eq!(s.root(), Some(root.clone()));
        expected_prior = true;
    }

    assert!(s.teardown());
    assert!(!s.is_observing());
}
