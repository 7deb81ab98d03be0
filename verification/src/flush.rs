//! The flush protocol as a state machine: from the handler's state and what
//! just happened outside, the next state and what is to be done next.

use crate::batch::{batch_acks, batch_end, batch_entries, batch_ids};
use crate::message::{
    acks, entries, AckView, Completion, DeleteEntry, DeleteOutcome, EntryView, MessageView,
    OutcomeView, OutputEvent,
};
use vstd::prelude::*;

verus! {

/// How far a flush has come.
#[derive(Clone, Copy, PartialEq, Eq, Structural, Debug)]
pub enum FlushStage {
    /// No flush runs; outcomes are taken.
    Idle,
    /// The buffered results are being serialized.
    Serializing,
    /// The payload is being sent to the sink.
    Emitting,
    /// The identity at the cursor is being stored.
    Storing,
    /// The request that starts at the cursor is being sent.
    Deleting,
    /// The callback is being told of each message.
    Acking,
}

/// Why a flush cannot go on.
#[derive(Clone, Copy, PartialEq, Eq, Structural, Debug)]
pub enum FatalError {
    /// The results could not be serialized.
    Serialize,
    /// The payload could not be delivered.
    Emit,
    /// An event arrived that the current stage does not wait for.
    Protocol,
}

/// What happened outside since the last action.
#[derive(Clone, Debug, PartialEq, Eq)]
pub enum FlushEvent {
    Serialized,
    SerializeFailed,
    Emitted,
    EmitFailed,
    /// The cache answered; `true` where it stored the identity.
    Stored(bool),
    Deleted(DeleteOutcome),
    Acked,
}

/// What a `FlushEvent` holds.
pub enum EventView {
    Serialized,
    SerializeFailed,
    Emitted,
    EmitFailed,
    Stored(bool),
    Deleted(OutcomeView),
    Acked,
}

impl View for FlushEvent {
    type V = EventView;

    open spec fn view(&self) -> EventView {
        match self {
            FlushEvent::Serialized => EventView::Serialized,
            FlushEvent::SerializeFailed => EventView::SerializeFailed,
            FlushEvent::Emitted => EventView::Emitted,
            FlushEvent::EmitFailed => EventView::EmitFailed,
            FlushEvent::Stored(ok) => EventView::Stored(*ok),
            FlushEvent::Deleted(o) => EventView::Deleted(o@),
            FlushEvent::Acked => EventView::Acked,
        }
    }
}

/// What is to be done next.
#[derive(Clone, Debug, PartialEq, Eq)]
pub enum FlushAction {
    /// No flush is due.
    Nothing,
    /// Serialize the buffered results, in order.
    Serialize,
    /// Send the payload to the sink.
    Emit,
    /// Store this identity in the cache.
    Store(Vec<u8>),
    /// Send one delete request with these entries.
    Delete(Vec<DeleteEntry>),
    /// Call the ack callback with each of these, in order.
    Ack(Vec<Result<String, String>>),
    /// The flush is over; `signalled` says whether a completion token
    /// waited for it and was signalled.
    Finished { signalled: bool },
    /// The flush is given up.
    Fatal(FatalError),
}

/// What a `FlushAction` holds.
pub enum ActionView {
    Nothing,
    Serialize,
    Emit,
    Store(Seq<u8>),
    Delete(Seq<EntryView>),
    Ack(Seq<AckView>),
    Finished { signalled: bool },
    Fatal(FatalError),
}

impl View for FlushAction {
    type V = ActionView;

    open spec fn view(&self) -> ActionView {
        match self {
            FlushAction::Nothing => ActionView::Nothing,
            FlushAction::Serialize => ActionView::Serialize,
            FlushAction::Emit => ActionView::Emit,
            FlushAction::Store(id) => ActionView::Store(id@),
            FlushAction::Delete(batch) => ActionView::Delete(entries(batch@)),
            FlushAction::Ack(told) => ActionView::Ack(acks(told@)),
            FlushAction::Finished { signalled } => ActionView::Finished { signalled: *signalled },
            FlushAction::Fatal(e) => ActionView::Fatal(*e),
        }
    }
}

/// A handler's state: the three buffers and the progress of a flush.
pub struct HandlerState<CE> {
    /// The completed results, oldest first.
    pub results: Seq<CE>,
    /// The dedup identities, oldest first.
    pub identities: Seq<Seq<u8>>,
    /// The messages to delete, oldest first.
    pub messages: Seq<MessageView>,
    pub stage: FlushStage,
    /// The identity or message that the stage works on.
    pub cursor: nat,
    /// What the callback is still to be told, in order.
    pub owed: Seq<AckView>,
    /// Whether the policy's window restarts when the flush is over.
    pub resets: bool,
    /// Whether a completion token waits for the flush.
    pub notify: bool,
}

impl<CE> HandlerState<CE> {
    /// A message is deleted only for a result, and the cursor of a stage
    /// that works on an item points at one.
    pub open spec fn wf(self) -> bool {
        &&& self.messages.len() <= self.results.len()
        &&& (self.stage == FlushStage::Storing ==> self.cursor < self.identities.len())
        &&& (self.stage == FlushStage::Deleting ==> self.cursor < self.messages.len())
    }

    /// The state with empty buffers and no flush.
    pub open spec fn cleared() -> Self {
        HandlerState {
            results: Seq::empty(),
            identities: Seq::empty(),
            messages: Seq::empty(),
            stage: FlushStage::Idle,
            cursor: 0,
            owed: Seq::empty(),
            resets: false,
            notify: false,
        }
    }

    /// The state after an outcome for `msg` was taken: a total success adds
    /// its result, the message and its identities; a partial one its result
    /// and its identities; an error nothing.
    pub open spec fn recorded<E>(self, msg: MessageView, completed: OutputEvent<CE, E>) -> Self {
        match completed.completed_event {
            Completion::Total(ce) => HandlerState {
                results: self.results.push(ce),
                messages: self.messages.push(msg),
                identities: self.identities + crate::message::byte_strings(completed.identities@),
                ..self
            },
            Completion::Partial(pair) => HandlerState {
                results: self.results.push(pair.0),
                identities: self.identities + crate::message::byte_strings(completed.identities@),
                ..self
            },
            Completion::Error(_) => self,
        }
    }

    /// The state in which a flush has begun.
    pub open spec fn started(self, resets: bool, notify: bool) -> Self {
        HandlerState {
            stage: FlushStage::Serializing,
            cursor: 0,
            owed: Seq::empty(),
            resets,
            notify,
            ..self
        }
    }

    /// Storing goes on at identity `i`; after the last one deleting begins.
    pub open spec fn enter_store(self, i: nat) -> (Self, ActionView) {
        if i < self.identities.len() {
            (
                HandlerState { stage: FlushStage::Storing, cursor: i, ..self },
                ActionView::Store(self.identities[i as int]),
            )
        } else {
            self.enter_delete(0)
        }
    }

    /// Deleting goes on with the request that starts at message `j`; after
    /// the last one the callback is told all that is owed.
    pub open spec fn enter_delete(self, j: nat) -> (Self, ActionView) {
        if j < self.messages.len() {
            (
                HandlerState { stage: FlushStage::Deleting, cursor: j, ..self },
                ActionView::Delete(batch_entries(self.messages, j as int)),
            )
        } else {
            (
                HandlerState { stage: FlushStage::Acking, cursor: 0, owed: Seq::empty(), ..self },
                ActionView::Ack(self.owed),
            )
        }
    }

    /// Whether the event ends the flush and empties the buffers.
    pub open spec fn ends_flush(self, e: EventView) -> bool {
        ||| (self.stage == FlushStage::Serializing && e == EventView::SerializeFailed)
        ||| (self.stage == FlushStage::Emitting && e == EventView::EmitFailed)
        ||| (self.stage == FlushStage::Acking && e == EventView::Acked)
    }

    /// The flush protocol: the state and the action that follow an event.
    /// An event that the stage does not wait for changes nothing.
    pub open spec fn next(self, e: EventView) -> (Self, ActionView) {
        match (self.stage, e) {
            (FlushStage::Serializing, EventView::Serialized) => (
                HandlerState { stage: FlushStage::Emitting, ..self },
                ActionView::Emit,
            ),
            (FlushStage::Serializing, EventView::SerializeFailed) => (
                Self::cleared(),
                ActionView::Fatal(FatalError::Serialize),
            ),
            (FlushStage::Emitting, EventView::Emitted) => self.enter_store(0),
            (FlushStage::Emitting, EventView::EmitFailed) => (
                Self::cleared(),
                ActionView::Fatal(FatalError::Emit),
            ),
            (FlushStage::Storing, EventView::Stored(_)) => self.enter_store(self.cursor + 1),
            (FlushStage::Deleting, EventView::Deleted(outcome)) => HandlerState {
                owed: self.owed + batch_acks(batch_ids(self.messages, self.cursor as int), outcome),
                ..self
            }.enter_delete(batch_end(self.cursor as int, self.messages.len() as int) as nat),
            (FlushStage::Acking, EventView::Acked) => (
                Self::cleared(),
                ActionView::Finished { signalled: self.notify },
            ),
            _ => (self, ActionView::Fatal(FatalError::Protocol)),
        }
    }
}

/// Two states with the same buffers and the same progress are one state.
pub proof fn lemma_same_state<CE>(a: HandlerState<CE>, b: HandlerState<CE>)
    requires
        a.results =~= b.results,
        a.identities =~= b.identities,
        a.messages =~= b.messages,
        a.stage == b.stage,
        a.cursor == b.cursor,
        a.owed =~= b.owed,
        a.resets == b.resets,
        a.notify == b.notify,
    ensures
        a == b,
{
}

/// A partial success adds one result and its identities, and no message to
/// delete.
pub proof fn lemma_partial_keeps_messages<CE, E>(
    s: HandlerState<CE>,
    msg: MessageView,
    completed: OutputEvent<CE, E>,
)
    requires
        completed.completed_event is Partial,
    ensures
        s.recorded(msg, completed).results.len() == s.results.len() + 1,
        s.recorded(msg, completed).identities.len() == s.identities.len()
            + completed.identities.len(),
        s.recorded(msg, completed).messages == s.messages,
{
}

/// A total success adds one result, the message and its identities.
pub proof fn lemma_total_adds_message<CE, E>(
    s: HandlerState<CE>,
    msg: MessageView,
    completed: OutputEvent<CE, E>,
)
    requires
        completed.completed_event is Total,
    ensures
        s.recorded(msg, completed).results.len() == s.results.len() + 1,
        s.recorded(msg, completed).identities.len() == s.identities.len()
            + completed.identities.len(),
        s.recorded(msg, completed).messages == s.messages.push(msg),
{
}

/// An error changes no buffer.
pub proof fn lemma_error_changes_nothing<CE, E>(
    s: HandlerState<CE>,
    msg: MessageView,
    completed: OutputEvent<CE, E>,
)
    requires
        completed.completed_event is Error,
    ensures
        s.recorded(msg, completed) == s,
{
}

/// Taking an outcome keeps the state well formed.
pub proof fn lemma_recorded_wf<CE, E>(
    s: HandlerState<CE>,
    msg: MessageView,
    completed: OutputEvent<CE, E>,
)
    requires
        s.wf(),
        s.stage == FlushStage::Idle,
    ensures
        s.recorded(msg, completed).wf(),
        s.recorded(msg, completed).stage == FlushStage::Idle,
{
}

/// Every step keeps the state well formed.
pub proof fn lemma_next_wf<CE>(s: HandlerState<CE>, e: EventView)
    requires
        s.wf(),
    ensures
        s.next(e).0.wf(),
{
}

/// The flush is reported finished only in answer to the callback's round,
/// and the callback's round is asked for only when no identity is left to
/// store and no request left to send: the completion token is signalled
/// after all of them.
pub proof fn lemma_finished_comes_last<CE>(s: HandlerState<CE>, e: EventView)
    requires
        s.wf(),
    ensures
        s.next(e).1 is Finished ==> s.stage == FlushStage::Acking && e == EventView::Acked,
        s.stage != FlushStage::Acking && s.next(e).0.stage == FlushStage::Acking ==> s.next(e).1 is Ack,
        s.next(e).1 is Ack ==> s.next(e).0.stage == FlushStage::Acking && ({
            ||| (s.stage == FlushStage::Emitting && s.identities.len() == 0 && s.messages.len()
                == 0)
            ||| (s.stage == FlushStage::Storing && s.cursor + 1 == s.identities.len()
                && s.messages.len() == 0)
            ||| (s.stage == FlushStage::Deleting && s.cursor + 10 >= s.messages.len())
        }),
{
}

/// When a flush ends, with the callback's round or with a fatal error, all
/// three buffers are empty and no flush runs.
pub proof fn lemma_flush_end_clears<CE>(s: HandlerState<CE>, e: EventView)
    requires
        s.ends_flush(e),
    ensures
        s.next(e).0.results.len() == 0,
        s.next(e).0.identities.len() == 0,
        s.next(e).0.messages.len() == 0,
        s.next(e).0.stage == FlushStage::Idle,
{
}

/// While a flush runs and does not end, the buffers stay as they are.
pub proof fn lemma_flush_keeps_buffers<CE>(s: HandlerState<CE>, e: EventView)
    requires
        !s.ends_flush(e),
    ensures
        s.next(e).0.results == s.results,
        s.next(e).0.identities == s.identities,
        s.next(e).0.messages == s.messages,
{
}

/// A request that failed as a whole reports every one of its ids as failed,
/// in order, and none as deleted.
pub proof fn lemma_failed_request_fails_all(ids: Seq<Seq<char>>)
    ensures
        batch_acks(ids, OutcomeView::Failed).len() == ids.len(),
        forall|i: int|
            0 <= i < ids.len() ==> (#[trigger] batch_acks(ids, OutcomeView::Failed)[i]) == Err::<
                Seq<char>,
                Seq<char>,
            >(ids[i]),
{
}

/// An answered request reports each id that the backend deleted as `Ok`,
/// then each id that it did not as `Err`, both in the backend's order.
pub proof fn lemma_answered_request_reports(
    ids: Seq<Seq<char>>,
    successful: Seq<Seq<char>>,
    failed: Seq<Seq<char>>,
)
    ensures
        batch_acks(ids, OutcomeView::Reported { successful, failed }).len() == successful.len()
            + failed.len(),
        forall|i: int|
            0 <= i < successful.len() ==> (#[trigger] batch_acks(
                ids,
                OutcomeView::Reported { successful, failed },
            )[i]) == Ok::<Seq<char>, Seq<char>>(successful[i]),
        forall|i: int|
            0 <= i < failed.len() ==> (#[trigger] batch_acks(
                ids,
                OutcomeView::Reported { successful, failed },
            )[successful.len() + i]) == Err::<Seq<char>, Seq<char>>(failed[i]),
{
}

} // verus!
