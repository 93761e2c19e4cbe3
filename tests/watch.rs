use colorwatch::watch::{on_event, triggers_processing, AccessKind, AccessMode, Action, EventKind};

#[test]
fn write_close_triggers_processing() {
    let k = EventKind::Access(AccessKind::Close(AccessMode::Write));
    assert!(triggers_processing(k));
    assert!(matches!(on_event(Ok(k)), Action::Process));
}

#[test]
fn other_events_are_ignored() {
    let kinds = vec![
        EventKind::Any,
        EventKind::Create,
        EventKind::Modify,
        EventKind::Remove,
        EventKind::Other,
        EventKind::Access(AccessKind::Any),
        EventKind::Access(AccessKind::Read),
        EventKind::Access(AccessKind::Other),
        EventKind::Access(AccessKind::Open(AccessMode::Read)),
        EventKind::Access(AccessKind::Open(AccessMode::Write)),
        EventKind::Access(AccessKind::Close(AccessMode::Read)),
        EventKind::Access(AccessKind::Close(AccessMode::Execute)),
        EventKind::Access(AccessKind::Close(AccessMode::Any)),
        EventKind::Access(AccessKind::Close(AccessMode::Other)),
    ];
    for k in kinds {
        assert!(!triggers_processing(k));
        assert!(matches!(on_event(Ok(k)), Action::Ignore));
    }
}

#[test]
fn watch_errors_are_reported() {
    match on_event(Err("queue overflow".to_string())) {
        Action::Report(m) => assert_eq!(m, "queue overflow"),
        _ => panic!("a watch error must be reported"),
    }
}
