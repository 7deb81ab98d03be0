//! The values that pass between a handler and the parties around it, each
//! with the mathematical value that contracts speak of.

use vstd::prelude::*;

verus! {

/// A message of the backing queue: its id and the token that deletes it.
#[derive(Clone, Debug, PartialEq, Eq)]
pub struct QueueMessage {
    pub message_id: String,
    pub ack_token: String,
}

/// What a `QueueMessage` holds.
pub struct MessageView {
    pub message_id: Seq<char>,
    pub ack_token: Seq<char>,
}

impl View for QueueMessage {
    type V = MessageView;

    open spec fn view(&self) -> MessageView {
        MessageView { message_id: self.message_id@, ack_token: self.ack_token@ }
    }
}

/// One entry of a batch-delete request.
#[derive(Clone, Debug, PartialEq, Eq)]
pub struct DeleteEntry {
    pub id: String,
    pub receipt_handle: String,
}

/// What a `DeleteEntry` holds.
pub struct EntryView {
    pub id: Seq<char>,
    pub receipt_handle: Seq<char>,
}

impl View for DeleteEntry {
    type V = EntryView;

    open spec fn view(&self) -> EntryView {
        EntryView { id: self.id@, receipt_handle: self.receipt_handle@ }
    }
}

/// How the processing of one message ended.
#[derive(Debug)]
pub enum Completion<CE, E> {
    /// Full success: the queue message may be deleted.
    Total(CE),
    /// A result, but incomplete work: the queue message stays.
    Partial((CE, E)),
    /// No result.
    Error(E),
}

/// An outcome together with the dedup identities of the work it covers.
#[derive(Debug)]
pub struct OutputEvent<CE, E> {
    pub completed_event: Completion<CE, E>,
    pub identities: Vec<Vec<u8>>,
}

/// What the queue backend answered to one batch-delete request.
#[derive(Clone, Debug, PartialEq, Eq)]
pub enum DeleteOutcome {
    /// The request went through; the backend names the ids it deleted and
    /// the ids it did not.
    Reported { successful: Vec<String>, failed: Vec<String> },
    /// The request itself failed: a timeout or a transport error.
    Failed,
}

/// What a `DeleteOutcome` holds.
pub enum OutcomeView {
    Reported { successful: Seq<Seq<char>>, failed: Seq<Seq<char>> },
    Failed,
}

impl View for DeleteOutcome {
    type V = OutcomeView;

    open spec fn view(&self) -> OutcomeView {
        match self {
            DeleteOutcome::Reported { successful, failed } => OutcomeView::Reported {
                successful: texts(successful@),
                failed: texts(failed@),
            },
            DeleteOutcome::Failed => OutcomeView::Failed,
        }
    }
}

/// What the ack callback is told of one message: `Ok` with its id where the
/// backend deleted it, `Err` with its id where it did not.
pub type AckView = Result<Seq<char>, Seq<char>>;

/// What an ack holds.
pub open spec fn ack_view(a: Result<String, String>) -> AckView {
    match a {
        Ok(id) => Ok(id@),
        Err(id) => Err(id@),
    }
}

/// The acks of a sequence, in order.
pub open spec fn acks(v: Seq<Result<String, String>>) -> Seq<AckView> {
    Seq::new(v.len(), |i: int| ack_view(v[i]))
}

/// The texts of a sequence of strings, in order.
pub open spec fn texts(v: Seq<String>) -> Seq<Seq<char>> {
    Seq::new(v.len(), |i: int| v[i]@)
}

/// The byte strings of a sequence of identities, in order.
pub open spec fn byte_strings(v: Seq<Vec<u8>>) -> Seq<Seq<u8>> {
    Seq::new(v.len(), |i: int| v[i]@)
}

/// The messages of a sequence, in order.
pub open spec fn messages(v: Seq<QueueMessage>) -> Seq<MessageView> {
    Seq::new(v.len(), |i: int| v[i]@)
}

/// The entries of a sequence, in order.
pub open spec fn entries(v: Seq<DeleteEntry>) -> Seq<EntryView> {
    Seq::new(v.len(), |i: int| v[i]@)
}

} // verus!
