//! The writer: the single worker that owns the index's mutating handle.
//!
//! Producers hand operations to the worker over a bounded channel. The
//! worker applies them in the order they arrive and commits once no
//! operation has arrived for a while. This module holds the worker's
//! decisions: from its state and what happened, to its next state and
//! what it does to the index.

use crate::search::document::{document_entries, FieldEntry};
use crate::search::index::{lacks_term, IdTerm};
use tantivy::Document;
use vstd::prelude::*;

verus! {

/// The capacity of the channel between the producers and the worker.
pub const CHANNEL_CAPACITY: usize = 4;

/// The memory budget of the writer's arena, in bytes: 300 MiB.
pub const MEMORY_ARENA: usize = 314_572_800;

/// The seconds without an operation after which the worker commits.
pub const AUTO_COMMIT_SECS: u64 = 15;

/// The coupled capacities of the writer: at most `channel_capacity`
/// operations wait while the arena holds up to `memory_arena` bytes.
#[derive(Debug, Copy, Clone)]
pub struct WriterConfig {
    pub channel_capacity: usize,
    pub memory_arena: usize,
    pub auto_commit_secs: u64,
}

impl Default for WriterConfig {
    fn default() -> (config: Self)
        ensures
            config.channel_capacity == CHANNEL_CAPACITY,
            config.memory_arena == MEMORY_ARENA,
            config.auto_commit_secs == AUTO_COMMIT_SECS,
    {
        WriterConfig {
            channel_capacity: CHANNEL_CAPACITY,
            memory_arena: MEMORY_ARENA,
            auto_commit_secs: AUTO_COMMIT_SECS,
        }
    }
}

/// An operation on the index.
#[derive(Debug)]
pub enum WriterOp {
    /// Adds a document.
    AddDocument(Document),
    /// Removes every document that holds the term.
    RemoveDocuments(IdTerm),
    /// Removes every document, those added since the last commit too.
    ClearAll,
    /// Asks the worker to show that it is alive; leaves the index as it is.
    Ping,
}

/// What an operation says.
pub enum WriterOpView {
    AddDocument(Seq<FieldEntry>),
    RemoveDocuments(IdTerm),
    ClearAll,
    Ping,
}

impl View for WriterOp {
    type V = WriterOpView;

    open spec fn view(&self) -> WriterOpView {
        match self {
            WriterOp::AddDocument(doc) => WriterOpView::AddDocument(document_entries(*doc)),
            WriterOp::RemoveDocuments(term) => WriterOpView::RemoveDocuments(*term),
            WriterOp::ClearAll => WriterOpView::ClearAll,
            WriterOp::Ping => WriterOpView::Ping,
        }
    }
}

/// The views of a run of operations.
pub open spec fn op_views(ops: Seq<WriterOp>) -> Seq<WriterOpView> {
    Seq::new(ops.len(), |i: int| ops[i]@)
}

/// The documents of an index after an operation.
pub open spec fn docs_after(docs: Seq<Seq<FieldEntry>>, op: WriterOpView) -> Seq<Seq<FieldEntry>> {
    match op {
        WriterOpView::AddDocument(doc) => docs.push(doc),
        WriterOpView::RemoveDocuments(term) => docs.filter(lacks_term(term)),
        WriterOpView::ClearAll => Seq::empty(),
        WriterOpView::Ping => docs,
    }
}

/// The documents of an index after a run of operations, applied in order.
pub open spec fn docs_after_all(docs: Seq<Seq<FieldEntry>>, ops: Seq<WriterOpView>) -> Seq<
    Seq<FieldEntry>,
>
    decreases ops.len(),
{
    if ops.len() == 0 {
        docs
    } else {
        docs_after(docs_after_all(docs, ops.drop_last()), ops.last())
    }
}

/// Applying two runs one after the other is applying their concatenation.
pub proof fn lemma_docs_after_concat(
    docs: Seq<Seq<FieldEntry>>,
    first: Seq<WriterOpView>,
    second: Seq<WriterOpView>,
)
    ensures
        docs_after_all(docs, first + second) == docs_after_all(
            docs_after_all(docs, first),
            second,
        ),
    decreases second.len(),
{
    if second.len() == 0 {
        assert(first + second == first);
    } else {
        lemma_docs_after_concat(docs, first, second.drop_last());
        assert((first + second).drop_last() == first + second.drop_last());
        assert((first + second).last() == second.last());
    }
}

/// What the worker does to the index for an operation.
#[derive(Debug)]
pub enum IndexCall {
    /// Adds the document.
    AddDocument(Document),
    /// Deletes by the term.
    DeleteTerm(IdTerm),
    /// Deletes every document, those added since the last commit too.
    DeleteAll,
    /// Nothing on the index: acknowledges a ping.
    Acknowledge,
}

impl View for IndexCall {
    type V = WriterOpView;

    /// A call is told by the operation that it carries out.
    open spec fn view(&self) -> WriterOpView {
        match self {
            IndexCall::AddDocument(doc) => WriterOpView::AddDocument(document_entries(*doc)),
            IndexCall::DeleteTerm(term) => WriterOpView::RemoveDocuments(*term),
            IndexCall::DeleteAll => WriterOpView::ClearAll,
            IndexCall::Acknowledge => WriterOpView::Ping,
        }
    }
}

/// The call that carries out an operation.
pub fn handle_message(op: WriterOp) -> (call: IndexCall)
    ensures
        call@ == op@,
{
    match op {
        WriterOp::Ping => IndexCall::Acknowledge,
        WriterOp::AddDocument(doc) => IndexCall::AddDocument(doc),
        WriterOp::RemoveDocuments(term) => IndexCall::DeleteTerm(term),
        WriterOp::ClearAll => IndexCall::DeleteAll,
    }
}

/// The state of the worker.
#[derive(Debug, Copy, Clone, PartialEq, Eq, Structural)]
pub enum WriterState {
    /// Nothing has been applied since the last commit.
    Idle,
    /// Something has been applied since the last commit.
    Dirty,
    /// The worker has left its loop.
    Terminal,
}

/// What the worker's wait ended with.
#[derive(Debug)]
pub enum WriterEvent {
    /// An operation arrived.
    Op(WriterOp),
    /// The commit interval passed without an operation.
    Timeout,
    /// Every producer is gone.
    Closed,
    /// A call on the index failed.
    Failed,
}

/// What an event says.
pub enum WriterEventView {
    Op(WriterOpView),
    Timeout,
    Closed,
    Failed,
}

impl View for WriterEvent {
    type V = WriterEventView;

    open spec fn view(&self) -> WriterEventView {
        match self {
            WriterEvent::Op(op) => WriterEventView::Op(op@),
            WriterEvent::Timeout => WriterEventView::Timeout,
            WriterEvent::Closed => WriterEventView::Closed,
            WriterEvent::Failed => WriterEventView::Failed,
        }
    }
}

/// What the worker does next.
#[derive(Debug)]
pub enum WriterAction {
    /// Carries out an operation.
    Apply(IndexCall),
    /// Commits.
    Commit,
    /// Commits, waits for the merges to end, and leaves.
    Shutdown,
    /// Leaves without a commit, with the error of the failed call.
    Abort,
    /// Nothing.
    Nothing,
}

/// What an action says.
pub enum WriterActionView {
    Apply(WriterOpView),
    Commit,
    Shutdown,
    Abort,
    Nothing,
}

impl View for WriterAction {
    type V = WriterActionView;

    open spec fn view(&self) -> WriterActionView {
        match self {
            WriterAction::Apply(call) => WriterActionView::Apply(call@),
            WriterAction::Commit => WriterActionView::Commit,
            WriterAction::Shutdown => WriterActionView::Shutdown,
            WriterAction::Abort => WriterActionView::Abort,
            WriterAction::Nothing => WriterActionView::Nothing,
        }
    }
}

/// The worker's next state.
pub open spec fn next_state(state: WriterState, event: WriterEventView) -> WriterState {
    match (state, event) {
        (WriterState::Terminal, _) => WriterState::Terminal,
        (_, WriterEventView::Failed) => WriterState::Terminal,
        (_, WriterEventView::Closed) => WriterState::Terminal,
        (_, WriterEventView::Op(_)) => WriterState::Dirty,
        (_, WriterEventView::Timeout) => WriterState::Idle,
    }
}

/// What the worker does on an event: it carries out an operation that
/// arrives; it commits when the interval passes after something was
/// applied; it commits and leaves when the producers are gone; it leaves
/// at once when a call failed. Once it has left it does nothing.
pub open spec fn action_on(state: WriterState, event: WriterEventView) -> WriterActionView {
    match (state, event) {
        (WriterState::Terminal, _) => WriterActionView::Nothing,
        (_, WriterEventView::Failed) => WriterActionView::Abort,
        (_, WriterEventView::Closed) => WriterActionView::Shutdown,
        (_, WriterEventView::Op(op)) => WriterActionView::Apply(op),
        (WriterState::Dirty, WriterEventView::Timeout) => WriterActionView::Commit,
        (WriterState::Idle, WriterEventView::Timeout) => WriterActionView::Nothing,
    }
}

/// One turn of the worker's loop.
pub fn run_writer(state: WriterState, event: WriterEvent) -> (turn: (WriterState, WriterAction))
    ensures
        turn.0 == next_state(state, event@),
        turn.1@ == action_on(state, event@),
{
    match state {
        WriterState::Terminal => (WriterState::Terminal, WriterAction::Nothing),
        WriterState::Idle => match event {
            WriterEvent::Op(op) => (WriterState::Dirty, WriterAction::Apply(handle_message(op))),
            WriterEvent::Timeout => (WriterState::Idle, WriterAction::Nothing),
            WriterEvent::Closed => (WriterState::Terminal, WriterAction::Shutdown),
            WriterEvent::Failed => (WriterState::Terminal, WriterAction::Abort),
        },
        WriterState::Dirty => match event {
            WriterEvent::Op(op) => (WriterState::Dirty, WriterAction::Apply(handle_message(op))),
            WriterEvent::Timeout => (WriterState::Idle, WriterAction::Commit),
            WriterEvent::Closed => (WriterState::Terminal, WriterAction::Shutdown),
            WriterEvent::Failed => (WriterState::Terminal, WriterAction::Abort),
        },
    }
}

/// How long the worker waits for an operation: without limit while
/// nothing is to be committed, else for the commit interval. `None` stands
/// for a wait without limit.
pub fn wait_limit(state: WriterState, config: &WriterConfig) -> (seconds: Option<u64>)
    ensures
        seconds == (if state == WriterState::Dirty {
            Some(config.auto_commit_secs)
        } else {
            None
        }),
{
    match state {
        WriterState::Dirty => Some(config.auto_commit_secs),
        _ => None,
    }
}

/// Why the writer did not start.
#[derive(Debug)]
pub enum StartError {
    /// The worker ended with the given error.
    Worker(String),
    /// The worker ended without an error, and without an answer.
    Unknown,
}

/// What the worker ended with, seen from the one who started it.
pub open spec fn start_outcome(
    sent: bool,
    acknowledged: bool,
    worker_error: Option<String>,
) -> Result<(), StartError> {
    if sent && acknowledged {
        Ok(())
    } else {
        match worker_error {
            Some(error) => Err(StartError::Worker(error)),
            None => Err(StartError::Unknown),
        }
    }
}

/// Decides how the start of the writer ended. The writer has started when
/// the first ping was sent and acknowledged. Else the worker is gone: its
/// error is passed on where it left one.
pub fn start_writer(sent: bool, acknowledged: bool, worker_error: Option<String>) -> (outcome:
    Result<(), StartError>)
    ensures
        outcome == start_outcome(sent, acknowledged, worker_error),
{
    if sent && acknowledged {
        Ok(())
    } else {
        match worker_error {
            Some(error) => Err(StartError::Worker(error)),
            None => Err(StartError::Unknown),
        }
    }
}

/// The state of the worker after a run of events.
pub open spec fn state_along(state: WriterState, events: Seq<WriterEventView>) -> WriterState
    decreases events.len(),
{
    if events.len() == 0 {
        state
    } else {
        next_state(state_along(state, events.drop_last()), events.last())
    }
}

/// The operations that the worker carries out over a run of events, in
/// the order it carries them out.
pub open spec fn applied_along(state: WriterState, events: Seq<WriterEventView>) -> Seq<
    WriterOpView,
>
    decreases events.len(),
{
    if events.len() == 0 {
        Seq::empty()
    } else {
        let before = applied_along(state, events.drop_last());
        match action_on(state_along(state, events.drop_last()), events.last()) {
            WriterActionView::Apply(op) => before.push(op),
            _ => before,
        }
    }
}

/// The operations that arrive over a run of events, in the order they
/// arrive.
pub open spec fn arrived(events: Seq<WriterEventView>) -> Seq<WriterOpView>
    decreases events.len(),
{
    if events.len() == 0 {
        Seq::empty()
    } else {
        let before = arrived(events.drop_last());
        match events.last() {
            WriterEventView::Op(op) => before.push(op),
            _ => before,
        }
    }
}

/// A run of events is undisturbed when the producers stay and no call
/// fails: each event is an operation or the passing of the interval.
pub open spec fn undisturbed(events: Seq<WriterEventView>) -> bool {
    forall|i: int|
        0 <= i < events.len() ==> (#[trigger] events[i]) is Op || events[i] is Timeout
}

/// What an index holds: what the readers see, and what the writer has
/// applied.
pub struct IndexModel {
    /// The documents as of the last commit.
    pub committed: Seq<Seq<FieldEntry>>,
    /// The documents with every applied operation.
    pub pending: Seq<Seq<FieldEntry>>,
}

/// The index after an action of the worker: an operation changes what is
/// applied, a commit shows the readers what is applied.
pub open spec fn index_after(index: IndexModel, action: WriterActionView) -> IndexModel {
    match action {
        WriterActionView::Apply(op) => IndexModel {
            committed: index.committed,
            pending: docs_after(index.pending, op),
        },
        WriterActionView::Commit => IndexModel {
            committed: index.pending,
            pending: index.pending,
        },
        WriterActionView::Shutdown => IndexModel {
            committed: index.pending,
            pending: index.pending,
        },
        WriterActionView::Abort => index,
        WriterActionView::Nothing => index,
    }
}

/// The index after a run of events.
pub open spec fn index_along(
    state: WriterState,
    index: IndexModel,
    events: Seq<WriterEventView>,
) -> IndexModel
    decreases events.len(),
{
    if events.len() == 0 {
        index
    } else {
        index_after(
            index_along(state, index, events.drop_last()),
            action_on(state_along(state, events.drop_last()), events.last()),
        )
    }
}

/// The index sees operations in the order they were accepted: while the
/// worker runs undisturbed it carries out every operation that arrives,
/// each once, in the order of arrival, and what is applied to the index is
/// those operations applied in that order.
pub proof fn lemma_applied_in_arrival_order(
    state: WriterState,
    index: IndexModel,
    events: Seq<WriterEventView>,
)
    requires
        state != WriterState::Terminal,
        undisturbed(events),
    ensures
        state_along(state, events) != WriterState::Terminal,
        applied_along(state, events) == arrived(events),
        index_along(state, index, events).pending == docs_after_all(
            index.pending,
            arrived(events),
        ),
    decreases events.len(),
{
    if events.len() > 0 {
        let rest = events.drop_last();
        assert forall|i: int| 0 <= i < rest.len() implies (#[trigger] rest[i]) is Op
            || rest[i] is Timeout by {
            assert(rest[i] == events[i]);
        }
        assert(events.last() == events[events.len() - 1]);
        lemma_applied_in_arrival_order(state, index, rest);
        match events.last() {
            WriterEventView::Op(op) => {
                assert(arrived(events).drop_last() == arrived(rest));
            },
            _ => {},
        }
    }
}

/// Nothing stays uncommitted while the worker is idle: where the readers
/// saw everything applied when the worker was last idle, they see
/// everything applied whenever it is idle again, and when it has left
/// after the producers were gone.
pub proof fn lemma_idle_is_committed(
    state: WriterState,
    index: IndexModel,
    events: Seq<WriterEventView>,
)
    requires
        state != WriterState::Terminal,
        state == WriterState::Idle ==> index.committed == index.pending,
    ensures
        state_along(state, events) == WriterState::Idle ==> index_along(
            state,
            index,
            events,
        ).committed == index_along(state, index, events).pending,
        events.len() > 0 && events.last() is Closed && state_along(state, events.drop_last())
            != WriterState::Terminal ==> index_along(state, index, events).committed
            == index_along(state, index, events).pending,
    decreases events.len(),
{
    if events.len() > 0 {
        lemma_idle_is_committed(state, index, events.drop_last());
    }
}

/// A commit publishes every operation accepted before it: when an
/// undisturbed run ends with the passing of the interval, the readers see
/// every operation that arrived, applied in the order of arrival.
pub proof fn lemma_commit_publishes(
    state: WriterState,
    index: IndexModel,
    events: Seq<WriterEventView>,
)
    requires
        state != WriterState::Terminal,
        state == WriterState::Idle ==> index.committed == index.pending,
        undisturbed(events),
        events.len() > 0,
        events.last() is Timeout,
    ensures
        state_along(state, events) == WriterState::Idle,
        index_along(state, index, events).committed == docs_after_all(
            index.pending,
            arrived(events),
        ),
{
    lemma_applied_in_arrival_order(state, index, events);
    lemma_idle_is_committed(state, index, events);
    let rest = events.drop_last();
    assert forall|i: int| 0 <= i < rest.len() implies (#[trigger] rest[i]) is Op || rest[i]
        is Timeout by {
        assert(rest[i] == events[i]);
    }
    lemma_applied_in_arrival_order(state, index, rest);
}

/// The events of a run of operations that arrive one after the other, with
/// the passing of the commit interval after the last.
pub open spec fn arrivals_then_timeout(ops: Seq<WriterOpView>) -> Seq<WriterEventView> {
    Seq::new(ops.len(), |i: int| WriterEventView::Op(ops[i])).push(WriterEventView::Timeout)
}

/// The operations that arrive over a run of arrivals are those that were
/// sent, in the order they were sent.
pub proof fn lemma_arrivals_arrive(ops: Seq<WriterOpView>)
    ensures
        arrived(Seq::new(ops.len(), |i: int| WriterEventView::Op(ops[i]))) == ops,
        arrived(arrivals_then_timeout(ops)) == ops,
    decreases ops.len(),
{
    let events = Seq::new(ops.len(), |i: int| WriterEventView::Op(ops[i]));
    if ops.len() > 0 {
        let rest = ops.drop_last();
        lemma_arrivals_arrive(rest);
        assert(events.drop_last() == Seq::new(rest.len(), |i: int| WriterEventView::Op(rest[i])));
        assert(arrived(events) == rest.push(ops.last()));
        assert(rest.push(ops.last()) == ops);
    }
    assert(arrivals_then_timeout(ops).drop_last() == events);
}

/// Operations that were accepted are seen after the next commit: when the
/// worker is idle with nothing uncommitted, takes a run of operations and
/// then sees the commit interval pass, the readers see the documents with
/// every one of those operations applied, in the order they were sent.
pub proof fn lemma_accepted_operations_are_committed(index: IndexModel, ops: Seq<WriterOpView>)
    requires
        index.committed == index.pending,
    ensures
        index_along(WriterState::Idle, index, arrivals_then_timeout(ops)).committed
            == docs_after_all(index.committed, ops),
{
    let events = arrivals_then_timeout(ops);
    lemma_arrivals_arrive(ops);
    assert(undisturbed(events));
    if ops.len() == 0 {
        assert(events.drop_last() == Seq::<WriterEventView>::empty());
        assert(index_along(WriterState::Idle, index, Seq::<WriterEventView>::empty()) == index);
        assert(state_along(WriterState::Idle, Seq::<WriterEventView>::empty())
            == WriterState::Idle);
    } else {
        let arrivals = events.drop_last();
        assert(undisturbed(arrivals)) by {
            assert forall|i: int| 0 <= i < arrivals.len() implies (#[trigger] arrivals[i]) is Op
                || arrivals[i] is Timeout by {
                assert(arrivals[i] == events[i]);
            }
        }
        lemma_applied_in_arrival_order(WriterState::Idle, index, arrivals);
        assert(arrivals.last() is Op);
        assert(state_along(WriterState::Idle, arrivals) == WriterState::Dirty);
    }
}

} // verus!
