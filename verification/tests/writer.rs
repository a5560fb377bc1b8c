use cronos::search::index::IdTerm;
use cronos::search::writer::{
    handle_message, run_writer, start_writer, wait_limit, IndexCall, StartError, WriterAction,
    WriterConfig, WriterEvent, WriterOp, WriterState, AUTO_COMMIT_SECS, CHANNEL_CAPACITY,
    MEMORY_ARENA,
};

fn remove(id: i64) -> WriterOp {
    WriterOp::RemoveDocuments(IdTerm { field: 0, id })
}

#[test]
fn the_capacities_belong_together() {
    let config = WriterConfig::default();
    assert_eq!(config.channel_capacity, 4);
    assert_eq!(config.memory_arena, 300 << 20);
    assert_eq!(config.auto_commit_secs, 15);
    assert_eq!(CHANNEL_CAPACITY, 4);
    assert_eq!(MEMORY_ARENA, 314_572_800);
    assert_eq!(AUTO_COMMIT_SECS, 15);
}

#[test]
fn each_operation_has_its_call() {
    assert!(matches!(handle_message(WriterOp::Ping), IndexCall::Acknowledge));
    assert!(matches!(handle_message(WriterOp::ClearAll), IndexCall::DeleteAll));
    assert!(matches!(
        handle_message(remove(7)),
        IndexCall::DeleteTerm(IdTerm { field: 0, id: 7 })
    ));
    let mut document = tantivy::Document::new();
    document.add_i64(tantivy::schema::Field::from_field_id(0), 5);
    match handle_message(WriterOp::AddDocument(document)) {
        IndexCall::AddDocument(carried) => assert_eq!(carried.len(), 1),
        _ => panic!("the document was expected"),
    }
}

#[test]
fn an_idle_worker_turns_dirty_on_an_operation() {
    let (state, action) = run_writer(WriterState::Idle, WriterEvent::Op(WriterOp::ClearAll));
    assert_eq!(state, WriterState::Dirty);
    assert!(matches!(action, WriterAction::Apply(IndexCall::DeleteAll)));
    let (state, action) = run_writer(WriterState::Idle, WriterEvent::Op(WriterOp::Ping));
    assert_eq!(state, WriterState::Dirty);
    assert!(matches!(action, WriterAction::Apply(IndexCall::Acknowledge)));
}

#[test]
fn a_dirty_worker_stays_dirty_on_an_operation() {
    let (state, action) = run_writer(WriterState::Dirty, WriterEvent::Op(remove(3)));
    assert_eq!(state, WriterState::Dirty);
    assert!(matches!(action, WriterAction::Apply(IndexCall::DeleteTerm(IdTerm { id: 3, .. }))));
}

#[test]
fn a_dirty_worker_commits_when_the_interval_passes() {
    let (state, action) = run_writer(WriterState::Dirty, WriterEvent::Timeout);
    assert_eq!(state, WriterState::Idle);
    assert!(matches!(action, WriterAction::Commit));
    let (state, action) = run_writer(WriterState::Idle, WriterEvent::Timeout);
    assert_eq!(state, WriterState::Idle);
    assert!(matches!(action, WriterAction::Nothing));
}

#[test]
fn the_worker_commits_and_leaves_when_the_producers_are_gone() {
    for state in [WriterState::Idle, WriterState::Dirty] {
        let (next, action) = run_writer(state, WriterEvent::Closed);
        assert_eq!(next, WriterState::Terminal);
        assert!(matches!(action, WriterAction::Shutdown));
    }
}

#[test]
fn a_failed_call_ends_the_worker_without_a_commit() {
    for state in [WriterState::Idle, WriterState::Dirty] {
        let (next, action) = run_writer(state, WriterEvent::Failed);
        assert_eq!(next, WriterState::Terminal);
        assert!(matches!(action, WriterAction::Abort));
    }
}

#[test]
fn a_worker_that_has_left_does_nothing() {
    let events = vec![
        WriterEvent::Op(WriterOp::ClearAll),
        WriterEvent::Timeout,
        WriterEvent::Closed,
        WriterEvent::Failed,
    ];
    for event in events {
        let (next, action) = run_writer(WriterState::Terminal, event);
        assert_eq!(next, WriterState::Terminal);
        assert!(matches!(action, WriterAction::Nothing));
    }
}

#[test]
fn the_worker_waits_without_limit_unless_dirty() {
    let config = WriterConfig::default();
    assert_eq!(wait_limit(WriterState::Idle, &config), None);
    assert_eq!(wait_limit(WriterState::Dirty, &config), Some(15));
    assert_eq!(wait_limit(WriterState::Terminal, &config), None);
    let quick = WriterConfig { channel_capacity: 4, memory_arena: 1, auto_commit_secs: 2 };
    assert_eq!(wait_limit(WriterState::Dirty, &quick), Some(2));
}

#[test]
fn operations_are_carried_out_in_the_order_they_arrive() {
    let events = vec![
        WriterEvent::Op(remove(1)),
        WriterEvent::Op(remove(2)),
        WriterEvent::Op(remove(3)),
        WriterEvent::Op(remove(4)),
        WriterEvent::Timeout,
        WriterEvent::Timeout,
        WriterEvent::Op(remove(5)),
        WriterEvent::Op(WriterOp::ClearAll),
        WriterEvent::Closed,
        WriterEvent::Op(remove(6)),
    ];
    let mut state = WriterState::Idle;
    let mut trace = Vec::new();
    for event in events {
        let (next, action) = run_writer(state, event);
        state = next;
        trace.push(match action {
            WriterAction::Apply(IndexCall::DeleteTerm(term)) => format!("remove {}", term.id),
            WriterAction::Apply(IndexCall::DeleteAll) => "clear".to_string(),
            WriterAction::Apply(_) => "other".to_string(),
            WriterAction::Commit => "commit".to_string(),
            WriterAction::Shutdown => "shutdown".to_string(),
            WriterAction::Abort => "abort".to_string(),
            WriterAction::Nothing => "nothing".to_string(),
        });
    }
    assert_eq!(state, WriterState::Terminal);
    assert_eq!(
        trace,
        vec![
            "remove 1", "remove 2", "remove 3", "remove 4", "commit", "nothing", "remove 5",
            "clear", "shutdown", "nothing",
        ]
    );
}

#[test]
fn the_writer_has_started_once_the_ping_is_acknowledged() {
    assert!(start_writer(true, true, None).is_ok());
    assert!(start_writer(true, true, Some("late".to_string())).is_ok());
    assert!(matches!(start_writer(true, false, None), Err(StartError::Unknown)));
    assert!(matches!(start_writer(false, false, None), Err(StartError::Unknown)));
    assert!(matches!(
        start_writer(false, true, Some("no directory".to_string())),
        Err(StartError::Worker(message)) if message == "no directory"
    ));
    assert!(matches!(
        start_writer(true, false, Some("lock held".to_string())),
        Err(StartError::Worker(message)) if message == "lock held"
    ));
}
