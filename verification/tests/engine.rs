use filewatcher::event::{EventKind, WatchEvent};
use filewatcher::watcher::Watcher;

fn modify(paths: &[&str]) -> WatchEvent {
    WatchEvent::new(
        EventKind::Modify,
        paths.iter().map(|p| p.to_string()).collect(),
    )
}

#[test]
fn fifo_order() {
    let mut w = Watcher::new();
    let names = ["/d/a.txt", "/d/b.txt", "/d/c.txt"];
    for name in names {
        assert!(w.handle_raw_event(Some(modify(&[name]))));
    }
    assert_eq!(w.queue_size(), 3);
    for name in names {
        let e = w.poll_event().expect("an admitted event must be polled");
        assert_eq!(e.path_at(0), name);
    }
    assert!(w.poll_event().is_none());
}

#[test]
fn filter_admission() {
    let mut w = Watcher::new();
    let req = w.watch_filename_register("/a/f.txt");
    assert_eq!(req.target, "/a");
    assert!(!req.recursive);
    assert_eq!(w.path_size(), 1);

    // An event touching only another path is never enqueued.
    assert!(!w.handle_raw_event(Some(modify(&["/a/other.txt"]))));
    assert_eq!(w.queue_size(), 0);

    // An event touching the filtered path is enqueued.
    assert!(w.handle_raw_event(Some(modify(&["/a/f.txt"]))));
    assert_eq!(w.queue_size(), 1);

    // An event touching both is enqueued.
    assert!(w.handle_raw_event(Some(modify(&["/a/other.txt", "/a/f.txt"]))));
    assert_eq!(w.queue_size(), 2);
}

#[test]
fn empty_filter_admits_everything() {
    let mut w = Watcher::new();
    assert_eq!(w.path_size(), 0);
    assert!(w.handle_raw_event(Some(modify(&["/anywhere/at/all"]))));
    assert!(w.handle_raw_event(Some(WatchEvent::new(EventKind::Any, Vec::new()))));
    assert_eq!(w.queue_size(), 2);
}

#[test]
fn filter_monotonicity() {
    let mut w = Watcher::new();
    let _ = w.watch_filename_register("/a/f.txt");
    assert_eq!(w.path_size(), 1);

    // A later whole-subtree watch does not unset the filter.
    let req = w.watch_request("/b");
    assert_eq!(req.target, "/b");
    assert!(req.recursive);
    assert_eq!(w.path_size(), 1);

    // Events outside the filter set remain excluded.
    assert!(!w.handle_raw_event(Some(modify(&["/b/under-the-new-watch.txt"]))));
    assert_eq!(w.queue_size(), 0);
    assert!(w.handle_raw_event(Some(modify(&["/a/f.txt"]))));
    assert_eq!(w.queue_size(), 1);
}

#[test]
fn filename_watch_fallback() {
    let mut w = Watcher::new();
    // "/" has no parent directory, so the filename watch falls back to the
    // whole-subtree watch: same request, and no filter entry is added.
    let fallback = w.watch_filename_register("/");
    let plain = w.watch_request("/");
    assert_eq!(fallback.target, plain.target);
    assert_eq!(fallback.recursive, plain.recursive);
    assert_eq!(fallback.target, "/");
    assert!(fallback.recursive);
    assert_eq!(w.path_size(), 0);

    // With an empty filter, everything is still admitted.
    assert!(w.handle_raw_event(Some(modify(&["/etc/hosts"]))));
    assert_eq!(w.queue_size(), 1);
}

#[test]
fn non_blocking_poll_on_empty_queue() {
    let mut w = Watcher::new();
    assert!(w.poll_event().is_none());
    assert_eq!(w.queue_size(), 0);
    // Still empty after registrations: registration enqueues nothing.
    let _ = w.watch_request("/a");
    let _ = w.watch_filename_register("/a/f.txt");
    assert!(w.poll_event().is_none());
}

#[test]
fn count_consistency() {
    let mut w = Watcher::new();
    assert_eq!(w.queue_size(), 0);
    assert!(w.handle_raw_event(Some(modify(&["/x"]))));
    assert_eq!(w.queue_size(), 1);
    assert!(w.handle_raw_event(Some(modify(&["/y"]))));
    assert_eq!(w.queue_size(), 2);
    assert!(w.poll_event().is_some());
    assert_eq!(w.queue_size(), 1);
    assert!(w.poll_event().is_some());
    assert_eq!(w.queue_size(), 0);
    assert!(w.poll_event().is_none());
    assert_eq!(w.queue_size(), 0);
}

#[test]
fn signal_cardinality() {
    let mut w = Watcher::new();
    let _ = w.watch_filename_register("/a/f.txt");
    let mut signals: usize = 0;
    let deliveries = [
        Some(modify(&["/a/f.txt"])),   // admitted: one signal
        Some(modify(&["/a/no.txt"])),  // filtered out: no signal
        None,                          // delivery error: no signal
        Some(modify(&["/a/f.txt"])),   // admitted: one signal
    ];
    for raw in deliveries {
        if w.handle_raw_event(raw) {
            signals += 1;
        }
    }
    assert_eq!(signals, 2);
    assert_eq!(w.queue_size(), 2);
}

#[test]
fn delivery_error_is_discarded_silently() {
    let mut w = Watcher::new();
    assert!(!w.handle_raw_event(None));
    assert_eq!(w.queue_size(), 0);
    assert!(w.poll_event().is_none());
}

#[test]
fn end_to_end_filename_scenario() {
    let mut w = Watcher::new();
    let req = w.watch_filename_register("/tmp/dir/target.txt");
    assert_eq!(req.target, "/tmp/dir");
    assert!(!req.recursive);

    // The OS layer reports a change to a sibling, then to the target.
    assert!(!w.handle_raw_event(Some(modify(&["/tmp/dir/other.txt"]))));
    assert!(w.handle_raw_event(Some(modify(&["/tmp/dir/target.txt"]))));

    assert_eq!(w.queue_size(), 1);
    let event = w.poll_event().expect("the admitted event must be polled");
    assert!(event.kind().is_modify());
    assert!(event
        .affected_paths()
        .iter()
        .any(|p| p == "/tmp/dir/target.txt"));
    assert!(w.poll_event().is_none());
}
