//! The handler: the owner of the three buffers, which takes outcomes, decides
//! when to flush and walks through the flush protocol one event at a time.

use crate::batch::{acks_for_batch, batch_end_of, batch_message_ids, delete_batch};
use crate::flush::{
    lemma_same_state, ActionView, FatalError, FlushAction, FlushEvent, FlushStage, HandlerState,
};
use crate::message::{acks, byte_strings, messages, Completion, OutputEvent, QueueMessage};
use crate::policy::{duration_nanos, CompletionPolicy};
use crate::token::signal;
use std::time::Duration;
use tokio::sync::oneshot::Sender;
use vstd::prelude::*;

verus! {

/// A command of the handler's mailbox.
#[allow(non_camel_case_types)]
pub enum SqsCompletionHandlerMessage<CE, E> {
    /// Take the outcome of processing `msg`.
    mark_complete { msg: QueueMessage, completed: OutputEvent<CE, E> },
    /// Flush now, and signal `notify` when the flush is over.
    ack_all { notify: Option<Sender<()>> },
}

/// The buffers of results, dedup identities and deletable messages, the
/// policy that says when they are flushed, and the progress of the flush.
pub struct SqsCompletionHandler<CE> {
    completed_events: Vec<CE>,
    identities: Vec<Vec<u8>>,
    completed_messages: Vec<QueueMessage>,
    completion_policy: CompletionPolicy,
    stage: FlushStage,
    cursor: usize,
    owed: Vec<Result<String, String>>,
    resets: bool,
    notify: Option<Sender<()>>,
}

/// A total success that brings the results to the count threshold begins a
/// flush whatever the clock says; one that leaves them below it begins none
/// before the time threshold.
pub proof fn lemma_flush_at_count_threshold<CE, E>(
    policy: CompletionPolicy,
    s: HandlerState<CE>,
    msg: crate::message::MessageView,
    completed: OutputEvent<CE, E>,
    elapsed: nat,
)
    requires
        completed.completed_event is Total,
    ensures
        s.results.len() + 1 >= policy.max_messages() ==> policy.flush_due(
            s.recorded(msg, completed).results.len(),
            elapsed,
        ),
        s.results.len() + 1 < policy.max_messages() && elapsed < policy.max_nanos()
            ==> !policy.flush_due(s.recorded(msg, completed).results.len(), elapsed),
{
}

/// A copy of an identity.
fn copy_bytes(id: &Vec<u8>) -> (out: Vec<u8>)
    ensures
        out@ == id@,
{
    let mut out: Vec<u8> = Vec::new();
    let mut i: usize = 0;
    while i < id.len()
        invariant
            i <= id.len(),
            out@ == id@.subrange(0, i as int),
        decreases id.len() - i,
    {
        out.push(id[i]);
        assert(out@ =~= id@.subrange(0, i + 1));
        i += 1;
    }
    assert(out@ =~= id@);
    out
}

/// The count `len` as the policy takes it: counts beyond sixteen bits are at
/// or over every threshold, and so is the largest sixteen-bit count.
fn policy_count(len: usize) -> (c: u16)
    ensures
        c == if len > 65535 { 65535 } else { len as int },
{
    if len > 65535 {
        65535u16
    } else {
        len as u16
    }
}

impl<CE> SqsCompletionHandler<CE> {
    /// The handler's state.
    pub closed spec fn state(&self) -> HandlerState<CE> {
        HandlerState {
            results: self.completed_events@,
            identities: byte_strings(self.identities@),
            messages: messages(self.completed_messages@),
            stage: self.stage,
            cursor: self.cursor as nat,
            owed: acks(self.owed@),
            resets: self.resets,
            notify: self.notify is Some,
        }
    }

    /// The handler's policy.
    pub closed spec fn policy(&self) -> CompletionPolicy {
        self.completion_policy
    }

    /// The state is well formed.
    pub open spec fn wf(&self) -> bool {
        self.state().wf()
    }

    /// Whether the state is well formed, for a caller that cannot know it.
    pub fn is_well_formed(&self) -> (ok: bool)
        ensures
            ok == self.wf(),
    {
        self.completed_messages.len() <= self.completed_events.len() && match self.stage {
            FlushStage::Storing => self.cursor < self.identities.len(),
            FlushStage::Deleting => self.cursor < self.completed_messages.len(),
            _ => true,
        }
    }

    /// A handler with empty buffers and no flush under way.
    pub fn new(completion_policy: CompletionPolicy) -> (h: Self)
        ensures
            h.wf(),
            h.state() == HandlerState::<CE>::cleared(),
            h.policy() == completion_policy,
    {
        let h = Self {
            completed_events: Vec::new(),
            identities: Vec::new(),
            completed_messages: Vec::new(),
            completion_policy,
            stage: FlushStage::Idle,
            cursor: 0,
            owed: Vec::new(),
            resets: false,
            notify: None,
        };
        proof {
            lemma_same_state(h.state(), HandlerState::<CE>::cleared());
        }
        h
    }

    /// The buffered results, oldest first: what a flush serializes.
    pub fn completed_events(&self) -> (events: &Vec<CE>)
        ensures
            events@ == self.state().results,
    {
        &self.completed_events
    }

    /// The number of buffered dedup identities.
    pub fn identity_count(&self) -> (n: usize)
        ensures
            n == self.state().identities.len(),
    {
        self.identities.len()
    }

    /// The number of buffered messages to delete.
    pub fn message_count(&self) -> (n: usize)
        ensures
            n == self.state().messages.len(),
    {
        self.completed_messages.len()
    }

    /// How far the flush has come.
    pub fn stage(&self) -> (stage: FlushStage)
        ensures
            stage == self.state().stage,
    {
        self.stage
    }

    /// Appends the outcome to the buffers.
    fn record<E>(&mut self, msg: QueueMessage, completed: OutputEvent<CE, E>)
        ensures
            final(self).state() == old(self).state().recorded(msg@, completed),
            final(self).policy() == old(self).policy(),
    {
        let OutputEvent { completed_event, identities } = completed;
        let mut identities = identities;
        let ghost added = identities@;
        match completed_event {
            Completion::Total(ce) => {
                self.completed_events.push(ce);
                self.completed_messages.push(msg);
                self.identities.append(&mut identities);
                assert(byte_strings(self.identities@) =~= byte_strings(old(self).identities@)
                    + byte_strings(added));
                assert(messages(self.completed_messages@) =~= messages(
                    old(self).completed_messages@,
                ).push(msg@));
            },
            Completion::Partial(pair) => {
                self.completed_events.push(pair.0);
                self.identities.append(&mut identities);
                assert(byte_strings(self.identities@) =~= byte_strings(old(self).identities@)
                    + byte_strings(added));
            },
            Completion::Error(_) => {},
        }
    }

    /// Puts the handler at the start of a flush.
    fn start(&mut self, resets: bool, notify: Option<Sender<()>>)
        ensures
            final(self).state() == old(self).state().started(resets, notify is Some),
            final(self).policy() == old(self).policy(),
    {
        self.stage = FlushStage::Serializing;
        self.cursor = 0;
        self.owed.clear();
        self.resets = resets;
        self.notify = notify;
        proof {
            lemma_same_state(self.state(), old(self).state().started(resets, self.notify is Some));
        }
    }

    /// Takes the outcome of processing `msg`, `elapsed` after the policy's
    /// last reset: the buffers grow by what the outcome carries, and where
    /// the policy says so a flush begins, after which the policy's window
    /// restarts.
    pub fn mark_complete_at<E>(
        &mut self,
        msg: QueueMessage,
        completed: OutputEvent<CE, E>,
        elapsed: Duration,
    ) -> (action: FlushAction)
        requires
            old(self).wf(),
            old(self).state().stage == FlushStage::Idle,
        ensures
            final(self).wf(),
            final(self).policy() == old(self).policy(),
            ({
                let taken = old(self).state().recorded(msg@, completed);
                if old(self).policy().flush_due(taken.results.len(), duration_nanos(elapsed)) {
                    final(self).state() == taken.started(true, false) && action@
                        == ActionView::Serialize
                } else {
                    final(self).state() == taken && action@ == ActionView::Nothing
                }
            }),
    {
        self.record(msg, completed);
        let count = policy_count(self.completed_events.len());
        proof {
            self.completion_policy.lemma_max_messages_bound();
        }
        if self.completion_policy.should_flush_at(count, elapsed) {
            self.start(true, None);
            FlushAction::Serialize
        } else {
            FlushAction::Nothing
        }
    }

    /// Takes the outcome of processing `msg`, by the clock. The buffers grow
    /// by what the outcome carries. A flush begins where the policy says so:
    /// always once the results reach the count threshold or where the time
    /// threshold is zero, else as the clock decides.
    pub fn mark_complete<E>(&mut self, msg: QueueMessage, completed: OutputEvent<CE, E>) -> (action:
        FlushAction)
        requires
            old(self).wf(),
            old(self).state().stage == FlushStage::Idle,
        ensures
            final(self).wf(),
            final(self).policy() == old(self).policy(),
            ({
                let taken = old(self).state().recorded(msg@, completed);
                &&& (final(self).state() == taken.started(true, false) && action@
                    == ActionView::Serialize) || (final(self).state() == taken && action@
                    == ActionView::Nothing)
                &&& taken.results.len() >= old(self).policy().max_messages() ==> action@
                    == ActionView::Serialize
                &&& old(self).policy().max_nanos() == 0 ==> action@ == ActionView::Serialize
            }),
    {
        let elapsed = self.completion_policy.elapsed();
        self.mark_complete_at(msg, completed, elapsed)
    }

    /// Begins a flush whatever the buffers hold, also when they are empty.
    /// The handler keeps `notify` and signals it when the flush is over.
    pub fn ack_all(&mut self, notify: Option<Sender<()>>) -> (action: FlushAction)
        requires
            old(self).wf(),
            old(self).state().stage == FlushStage::Idle,
        ensures
            final(self).wf(),
            final(self).policy() == old(self).policy(),
            final(self).state() == old(self).state().started(false, notify is Some),
            action@ == ActionView::Serialize,
    {
        self.start(false, notify);
        FlushAction::Serialize
    }

    /// Applies one command of the mailbox.
    pub fn route_message<E>(&mut self, msg: SqsCompletionHandlerMessage<CE, E>) -> (action:
        FlushAction)
        requires
            old(self).wf(),
            old(self).state().stage == FlushStage::Idle,
        ensures
            final(self).wf(),
            final(self).policy() == old(self).policy(),
            match msg {
                SqsCompletionHandlerMessage::mark_complete { msg, completed } => {
                    let taken = old(self).state().recorded(msg@, completed);
                    &&& (final(self).state() == taken.started(true, false) && action@
                        == ActionView::Serialize) || (final(self).state() == taken && action@
                        == ActionView::Nothing)
                    &&& taken.results.len() >= old(self).policy().max_messages() ==> action@
                        == ActionView::Serialize
                    &&& old(self).policy().max_nanos() == 0 ==> action@ == ActionView::Serialize
                },
                SqsCompletionHandlerMessage::ack_all { notify } => {
                    &&& final(self).state() == old(self).state().started(false, notify is Some)
                    &&& action@ == ActionView::Serialize
                },
            },
    {
        match msg {
            SqsCompletionHandlerMessage::mark_complete { msg, completed } => self.mark_complete(
                msg,
                completed,
            ),
            SqsCompletionHandlerMessage::ack_all { notify } => self.ack_all(notify),
        }
    }

    /// Empties the buffers and ends the flush.
    fn clear(&mut self)
        ensures
            final(self).state() == HandlerState::<CE>::cleared(),
            final(self).policy() == old(self).policy(),
    {
        self.completed_events.clear();
        self.identities.clear();
        self.completed_messages.clear();
        self.owed.clear();
        self.stage = FlushStage::Idle;
        self.cursor = 0;
        self.resets = false;
        self.notify = None;
        proof {
            lemma_same_state(self.state(), HandlerState::<CE>::cleared());
        }
    }

    /// Goes on with the delete request that starts at message `j`, or with
    /// the callback's round after the last request.
    fn enter_delete(&mut self, j: usize) -> (action: FlushAction)
        requires
            j <= old(self).state().messages.len(),
        ensures
            final(self).state() == old(self).state().enter_delete(j as nat).0,
            action@ == old(self).state().enter_delete(j as nat).1,
            final(self).policy() == old(self).policy(),
    {
        if j < self.completed_messages.len() {
            self.stage = FlushStage::Deleting;
            self.cursor = j;
            let batch = delete_batch(&self.completed_messages, j);
            proof {
                lemma_same_state(self.state(), old(self).state().enter_delete(j as nat).0);
            }
            FlushAction::Delete(batch)
        } else {
            self.stage = FlushStage::Acking;
            self.cursor = 0;
            let mut told: Vec<Result<String, String>> = Vec::new();
            told.append(&mut self.owed);
            assert(acks(told@) =~= old(self).state().owed);
            proof {
                lemma_same_state(self.state(), old(self).state().enter_delete(j as nat).0);
            }
            FlushAction::Ack(told)
        }
    }

    /// Goes on with storing identity `i`, or with deleting after the last
    /// identity.
    fn enter_store(&mut self, i: usize) -> (action: FlushAction)
        requires
            i <= old(self).state().identities.len(),
        ensures
            final(self).state() == old(self).state().enter_store(i as nat).0,
            action@ == old(self).state().enter_store(i as nat).1,
            final(self).policy() == old(self).policy(),
    {
        if i < self.identities.len() {
            self.stage = FlushStage::Storing;
            self.cursor = i;
            let id = copy_bytes(&self.identities[i]);
            proof {
                lemma_same_state(self.state(), old(self).state().enter_store(i as nat).0);
            }
            FlushAction::Store(id)
        } else {
            self.enter_delete(0)
        }
    }

    /// Takes what happened outside and says what is to be done next, as the
    /// flush protocol has it. When the callback's round is over the buffers
    /// are emptied, the policy's window restarts if the policy began the
    /// flush, and the completion token, if one waits, is signalled. The
    /// thresholds never change.
    pub fn step(&mut self, event: FlushEvent) -> (action: FlushAction)
        requires
            old(self).wf(),
        ensures
            final(self).wf(),
            final(self).state() == old(self).state().next(event@).0,
            action@ == old(self).state().next(event@).1,
            final(self).policy().max_messages() == old(self).policy().max_messages(),
            final(self).policy().max_nanos() == old(self).policy().max_nanos(),
            !(old(self).state().stage == FlushStage::Acking && event@ == crate::flush::EventView::Acked
                && old(self).state().resets) ==> final(self).policy() == old(self).policy(),
    {
        proof {
            crate::flush::lemma_next_wf(self.state(), event@);
        }
        match (self.stage, event) {
            (FlushStage::Serializing, FlushEvent::Serialized) => {
                self.stage = FlushStage::Emitting;
                proof {
                    lemma_same_state(self.state(), old(self).state().next(event@).0);
                }
                FlushAction::Emit
            },
            (FlushStage::Serializing, FlushEvent::SerializeFailed) => {
                self.clear();
                FlushAction::Fatal(FatalError::Serialize)
            },
            (FlushStage::Emitting, FlushEvent::Emitted) => self.enter_store(0),
            (FlushStage::Emitting, FlushEvent::EmitFailed) => {
                self.clear();
                FlushAction::Fatal(FatalError::Emit)
            },
            (FlushStage::Storing, FlushEvent::Stored(_)) => {
                assert(self.cursor < self.identities.len());
                let i = self.cursor + 1;
                self.enter_store(i)
            },
            (FlushStage::Deleting, FlushEvent::Deleted(outcome)) => {
                let ids = batch_message_ids(&self.completed_messages, self.cursor);
                let mut told = acks_for_batch(&ids, &outcome);
                self.owed.append(&mut told);
                let j = batch_end_of(self.cursor, self.completed_messages.len());
                proof {
                    lemma_same_state(self.state(), (HandlerState {
                            owed: old(self).state().owed + crate::batch::batch_acks(
                                crate::batch::batch_ids(
                                    old(self).state().messages,
                                    old(self).state().cursor as int,
                                ),
                                outcome@,
                            ),
                            ..old(self).state()
                        }));
                }
                self.enter_delete(j)
            },
            (FlushStage::Acking, FlushEvent::Acked) => {
                let resets = self.resets;
                let token = self.notify.take();
                self.clear();
                if resets {
                    self.completion_policy.set_last_flush();
                }
                match token {
                    Some(token) => {
                        signal(token);
                        FlushAction::Finished { signalled: true }
                    },
                    None => FlushAction::Finished { signalled: false },
                }
            },
            _ => FlushAction::Fatal(FatalError::Protocol),
        }
    }
}

} // verus!
