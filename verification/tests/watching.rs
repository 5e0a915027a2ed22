use std::io::Write;
use std::time::{Duration, Instant};

use watchsession::event::ChangeKind;
use watchsession::observer::change_event_of;
use watchsession::payload::payload_for;
use watchsession::session::WatchSession;

#[test]
fn created_file_is_reported_with_its_path() {
    let dir = tempfile::tempdir().expect("temp dir");
    let root = dir.path().to_str().expect("utf-8 path").to_string();

    let mut s = WatchSession::new();
    assert_eq!(s.begin_set_root(&root), Ok(false));
    let rx = s.finish_set_root(root).expect("watch starts");

    let mut file = tempfile::Builder::new()
        .prefix("a")
        .suffix(".txt")
        .tempfile_in(dir.path())
        .expect("file in watched root");
    file.write_all(b"hello").expect("write");
    file.flush().expect("flush");
    let file_path = file.path().to_str().expect("utf-8 path").to_string();

    let deadline = Instant::now() + Duration::from_secs(10);
    let mut seen = false;
    while Instant::now() < deadline {
        match rx.recv_timeout(Duration::from_millis(200)) {
            Ok(msg) => {
                let e = change_event_of(msg);
                assert_ne!(e.kind, ChangeKind::Error);
                if e.affected_paths.iter().any(|p| p == &file_path) {
                    // The payload for this event carries the absolute path.
                    assert!(payload_for(&e).contains(&file_path));
                    seen = true;
                    break;
                }
            }
            Err(std::sync::mpsc::RecvTimeoutError::Timeout) => continue,
            Err(std::sync::mpsc::RecvTimeoutError::Disconnected) => {
                panic!("observation ended before the change arrived")
            }
        }
    }
    assert!(seen, "no event named the created file");

    assert!(s.teardown());
}

#[test]
fn teardown_closes_the_notification_channel() {
    let dir = tempfile::tempdir().expect("temp dir");
    let root = dir.path().to_str().expect("utf-8 path").to_string();

    let mut s = WatchSession::new();
    assert_eq!(s.begin_set_root(&root), Ok(false));
    let rx = s.finish_set_root(root).expect("watch starts");
    assert!(s.teardown());
    assert!(!s.is_observing());

    let deadline = Instant::now() + Duration::from_secs(10);
    loop {
        match rx.recv_timeout(Duration::from_millis(200)) {
            Err(std::sync::mpsc::RecvTimeoutError::Disconnected) => break,
            Err(std::sync::mpsc::RecvTimeoutError::Timeout) | Ok(_) => {
                assert!(Instant::now() < deadline, "channel never closed after teardown");
            }
        }
    }
}
