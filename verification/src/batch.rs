//! The batch-delete requests of a flush, and what the ack callback is told
//! of each request's answer.

use crate::message::{
    acks, entries, messages, texts, AckView, DeleteEntry, DeleteOutcome, EntryView, MessageView,
    OutcomeView, QueueMessage,
};
use vstd::prelude::*;

verus! {

/// The most entries that the queue backend takes in one delete request.
pub const MAX_BATCH: usize = 10;

/// Where the batch that starts at `start` ends, among `len` messages.
pub open spec fn batch_end(start: int, len: int) -> int {
    if start + 10 <= len {
        start + 10
    } else {
        len
    }
}

/// The number of requests that delete `len` messages.
pub open spec fn batch_count(len: int) -> int {
    (len + 9) / 10
}

/// The delete entry of a message.
pub open spec fn entry_of(m: MessageView) -> EntryView {
    EntryView { id: m.message_id, receipt_handle: m.ack_token }
}

/// The entries of the request that starts at message `start`.
pub open spec fn batch_entries(msgs: Seq<MessageView>, start: int) -> Seq<EntryView>
    recommends
        0 <= start <= msgs.len(),
{
    Seq::new(
        (batch_end(start, msgs.len() as int) - start) as nat,
        |k: int| entry_of(msgs[start + k]),
    )
}

/// The message ids of the request that starts at message `start`.
pub open spec fn batch_ids(msgs: Seq<MessageView>, start: int) -> Seq<Seq<char>>
    recommends
        0 <= start <= msgs.len(),
{
    Seq::new(
        (batch_end(start, msgs.len() as int) - start) as nat,
        |k: int| msgs[start + k].message_id,
    )
}

/// What the callback is told for one request with the message ids `ids`:
/// after an answer, `Ok` for each id reported deleted and then `Err` for each
/// id reported failed, both in the backend's order; after a failed request,
/// `Err` for each id of the request.
pub open spec fn batch_acks(ids: Seq<Seq<char>>, outcome: OutcomeView) -> Seq<AckView> {
    match outcome {
        OutcomeView::Reported { successful, failed } => Seq::new(
            successful.len(),
            |i: int| Ok::<Seq<char>, Seq<char>>(successful[i]),
        ) + Seq::new(failed.len(), |i: int| Err::<Seq<char>, Seq<char>>(failed[i])),
        OutcomeView::Failed => Seq::new(ids.len(), |i: int| Err::<Seq<char>, Seq<char>>(ids[i])),
    }
}

/// The end of the batch that starts at `start`.
pub fn batch_end_of(start: usize, len: usize) -> (end: usize)
    requires
        start <= len,
    ensures
        end == batch_end(start as int, len as int),
        start <= end <= len,
{
    if len - start >= MAX_BATCH {
        start + MAX_BATCH
    } else {
        len
    }
}

/// The entries of the delete request that starts at message `start`.
pub fn delete_batch(msgs: &Vec<QueueMessage>, start: usize) -> (batch: Vec<DeleteEntry>)
    requires
        start <= msgs.len(),
    ensures
        entries(batch@) == batch_entries(messages(msgs@), start as int),
{
    let end = batch_end_of(start, msgs.len());
    let mut batch: Vec<DeleteEntry> = Vec::new();
    let mut i: usize = start;
    while i < end
        invariant
            start <= i <= end <= msgs.len(),
            batch.len() == i - start,
            forall|k: int| 0 <= k < i - start ==> batch[k]@ == entry_of(#[trigger] msgs[start + k]@),
        decreases end - i,
    {
        let m = &msgs[i];
        batch.push(DeleteEntry { id: m.message_id.clone(), receipt_handle: m.ack_token.clone() });
        i += 1;
    }
    assert(entries(batch@) =~= batch_entries(messages(msgs@), start as int));
    batch
}

/// The message ids of the delete request that starts at message `start`.
pub fn batch_message_ids(msgs: &Vec<QueueMessage>, start: usize) -> (ids: Vec<String>)
    requires
        start <= msgs.len(),
    ensures
        texts(ids@) == batch_ids(messages(msgs@), start as int),
{
    let end = batch_end_of(start, msgs.len());
    let mut ids: Vec<String> = Vec::new();
    let mut i: usize = start;
    while i < end
        invariant
            start <= i <= end <= msgs.len(),
            ids.len() == i - start,
            forall|k: int| 0 <= k < i - start ==> ids[k]@ == (#[trigger] msgs[start + k])@.message_id,
        decreases end - i,
    {
        ids.push(msgs[i].message_id.clone());
        i += 1;
    }
    assert(texts(ids@) =~= batch_ids(messages(msgs@), start as int));
    ids
}

/// Appends `Ok` of each id, in order.
fn push_ok(out: &mut Vec<Result<String, String>>, ids: &Vec<String>)
    ensures
        acks(final(out)@) == acks(old(out)@) + Seq::new(
            ids.len() as nat,
            |i: int| Ok::<Seq<char>, Seq<char>>(ids[i]@),
        ),
{
    let ghost before = out@;
    let mut i: usize = 0;
    while i < ids.len()
        invariant
            i <= ids.len(),
            out.len() == before.len() + i,
            forall|k: int| 0 <= k < before.len() ==> out[k] == before[k],
            forall|j: int|
                before.len() <= j < before.len() + i ==> ack_ok(
                    #[trigger] out[j],
                    ids[j - before.len()]@,
                ),
        decreases ids.len() - i,
    {
        out.push(Ok(ids[i].clone()));
        i += 1;
    }
    assert(acks(out@) =~= acks(before) + Seq::new(
        ids.len() as nat,
        |i: int| Ok::<Seq<char>, Seq<char>>(ids[i]@),
    ));
}

/// Appends `Err` of each id, in order.
fn push_err(out: &mut Vec<Result<String, String>>, ids: &Vec<String>)
    ensures
        acks(final(out)@) == acks(old(out)@) + Seq::new(
            ids.len() as nat,
            |i: int| Err::<Seq<char>, Seq<char>>(ids[i]@),
        ),
{
    let ghost before = out@;
    let mut i: usize = 0;
    while i < ids.len()
        invariant
            i <= ids.len(),
            out.len() == before.len() + i,
            forall|k: int| 0 <= k < before.len() ==> out[k] == before[k],
            forall|j: int|
                before.len() <= j < before.len() + i ==> ack_err(
                    #[trigger] out[j],
                    ids[j - before.len()]@,
                ),
        decreases ids.len() - i,
    {
        out.push(Err(ids[i].clone()));
        i += 1;
    }
    assert(acks(out@) =~= acks(before) + Seq::new(
        ids.len() as nat,
        |i: int| Err::<Seq<char>, Seq<char>>(ids[i]@),
    ));
}

/// `a` reports the id `id` as deleted.
spec fn ack_ok(a: Result<String, String>, id: Seq<char>) -> bool {
    a is Ok && a->Ok_0@ == id
}

/// `a` reports the id `id` as not deleted.
spec fn ack_err(a: Result<String, String>, id: Seq<char>) -> bool {
    a is Err && a->Err_0@ == id
}

/// Appends to `out` what the callback is told for one request.
pub fn push_batch_acks(
    out: &mut Vec<Result<String, String>>,
    ids: &Vec<String>,
    outcome: &DeleteOutcome,
)
    ensures
        acks(final(out)@) == acks(old(out)@) + batch_acks(texts(ids@), outcome@),
{
    match outcome {
        DeleteOutcome::Reported { successful, failed } => {
            push_ok(out, successful);
            push_err(out, failed);
            assert(acks(out@) =~= acks(old(out)@) + batch_acks(texts(ids@), outcome@));
        },
        DeleteOutcome::Failed => {
            push_err(out, ids);
            assert(acks(out@) =~= acks(old(out)@) + batch_acks(texts(ids@), outcome@));
        },
    }
}

/// What the callback is told for one request with the message ids `ids`,
/// in the order of the calls.
pub fn acks_for_batch(ids: &Vec<String>, outcome: &DeleteOutcome) -> (out: Vec<
    Result<String, String>,
>)
    ensures
        acks(out@) == batch_acks(texts(ids@), outcome@),
{
    let mut out: Vec<Result<String, String>> = Vec::new();
    push_batch_acks(&mut out, ids, outcome);
    assert(acks(out@) =~= batch_acks(texts(ids@), outcome@));
    out
}

/// `10 k + r` messages with `0 < r < 10` are deleted in `k + 1` requests:
/// the request of index `i` starts at message `10 i`, takes ten messages
/// where `i < k`, and the last one takes `r` and ends the list.
pub proof fn lemma_batches_of_remainder(msgs: Seq<MessageView>, k: int, r: int, i: int)
    requires
        0 <= k,
        0 < r < 10,
        msgs.len() == 10 * k + r,
        0 <= i <= k,
    ensures
        batch_count(msgs.len() as int) == k + 1,
        i < k ==> batch_entries(msgs, 10 * i).len() == 10,
        i < k ==> batch_end(10 * i, msgs.len() as int) == 10 * (i + 1),
        batch_entries(msgs, 10 * k).len() == r,
        batch_end(10 * k, msgs.len() as int) == msgs.len(),
{
}

} // verus!
