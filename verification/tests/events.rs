use filewatcher::event::{EventKind, WatchEvent};

#[test]
fn kind_predicates_are_exact() {
    let kinds = [
        EventKind::Access,
        EventKind::Create,
        EventKind::Modify,
        EventKind::Remove,
        EventKind::Other,
        EventKind::Any,
    ];
    for kind in kinds {
        assert_eq!(kind.is_access(), matches!(kind, EventKind::Access));
        assert_eq!(kind.is_create(), matches!(kind, EventKind::Create));
        assert_eq!(kind.is_modify(), matches!(kind, EventKind::Modify));
        assert_eq!(kind.is_remove(), matches!(kind, EventKind::Remove));
        assert_eq!(kind.is_other(), matches!(kind, EventKind::Other));
        assert_eq!(kind.is_any(), matches!(kind, EventKind::Any));
    }
}

#[test]
fn event_carries_kind_and_paths_in_order() {
    let event = WatchEvent::new(
        EventKind::Create,
        vec!["/r/from.txt".to_string(), "/r/to.txt".to_string()],
    );
    assert!(event.kind().is_create());
    assert!(!event.kind().is_any());
    assert_eq!(event.path_count(), 2);
    assert_eq!(event.path_at(0), "/r/from.txt");
    assert_eq!(event.path_at(1), "/r/to.txt");
    assert_eq!(
        event.affected_paths().clone(),
        vec!["/r/from.txt".to_string(), "/r/to.txt".to_string()]
    );
}

#[test]
fn event_with_no_paths() {
    let event = WatchEvent::new(EventKind::Any, Vec::new());
    assert_eq!(event.path_count(), 0);
    assert!(event.affected_paths().is_empty());
}
