//! What a whole phase of a flush does: every identity is stored once and in
//! order, and every message is deleted in one of the requests, whose answers
//! the callback is told in the order of the requests.

use crate::batch::{batch_acks, batch_count, batch_end, batch_entries, batch_ids};
use crate::flush::{ActionView, EventView, FlushStage, HandlerState};
use crate::message::{AckView, MessageView, OutcomeView};
use vstd::prelude::*;

verus! {

/// The state after the backend's answers `outcomes` came in, one after the
/// other, and the action that followed each.
pub open spec fn after_answers<CE>(s: HandlerState<CE>, outcomes: Seq<OutcomeView>) -> (
    HandlerState<CE>,
    Seq<ActionView>,
)
    decreases outcomes.len(),
{
    if outcomes.len() == 0 {
        (s, Seq::empty())
    } else {
        let first = s.next(EventView::Deleted(outcomes[0]));
        let rest = after_answers(first.0, outcomes.drop_first());
        (rest.0, seq![first.1] + rest.1)
    }
}

/// What the callback is told for the requests from message `start` on, when
/// `outcomes` are their answers: request by request.
pub open spec fn told(msgs: Seq<MessageView>, start: int, outcomes: Seq<OutcomeView>) -> Seq<
    AckView,
>
    decreases outcomes.len(),
{
    if outcomes.len() == 0 {
        Seq::empty()
    } else {
        batch_acks(batch_ids(msgs, start), outcomes[0]) + told(
            msgs,
            batch_end(start, msgs.len() as int),
            outcomes.drop_first(),
        )
    }
}

/// The state after the cache's answers `stored` came in, one after the
/// other, and the action that followed each.
pub open spec fn after_stores<CE>(s: HandlerState<CE>, stored: Seq<bool>) -> (
    HandlerState<CE>,
    Seq<ActionView>,
)
    decreases stored.len(),
{
    if stored.len() == 0 {
        (s, Seq::empty())
    } else {
        let first = s.next(EventView::Stored(stored[0]));
        let rest = after_stores(first.0, stored.drop_first());
        (rest.0, seq![first.1] + rest.1)
    }
}

/// From the request that starts at the cursor on, the messages that are left
/// take `batch_count` of their number in requests. After that many answers,
/// whatever they are, each answer but the last was followed by the next
/// request, ten messages further on, and the last by the callback's round,
/// which is told what was owed before and then the report of each request,
/// in the order of the requests. Nothing else changed.
pub proof fn lemma_delete_phase<CE>(s: HandlerState<CE>, outcomes: Seq<OutcomeView>)
    requires
        s.stage == FlushStage::Deleting,
        s.cursor < s.messages.len(),
        outcomes.len() == batch_count(s.messages.len() - s.cursor),
    ensures
        after_answers(s, outcomes).0 == (HandlerState {
            stage: FlushStage::Acking,
            cursor: 0,
            owed: Seq::empty(),
            ..s
        }),
        after_answers(s, outcomes).1.len() == outcomes.len(),
        forall|j: int|
            0 <= j < outcomes.len() - 1 ==> (#[trigger] after_answers(s, outcomes).1[j])
                == ActionView::Delete(batch_entries(s.messages, s.cursor + 10 * (j + 1))),
        after_answers(s, outcomes).1.last() == ActionView::Ack(
            s.owed + told(s.messages, s.cursor as int, outcomes),
        ),
    decreases outcomes.len(),
{
    let len = s.messages.len() as int;
    let c = s.cursor as int;
    let first = s.next(EventView::Deleted(outcomes[0]));
    let rest = outcomes.drop_first();
    let acks0 = batch_acks(batch_ids(s.messages, c), outcomes[0]);
    if c + 10 < len {
        assert(rest.len() == batch_count(len - (c + 10)));
        lemma_delete_phase(first.0, rest);
        let tail = after_answers(first.0, rest);
        assert((s.owed + acks0) + told(s.messages, c + 10, rest) =~= s.owed + told(
            s.messages,
            c,
            outcomes,
        ));
        assert forall|j: int| 0 <= j < outcomes.len() - 1 implies (#[trigger] after_answers(
            s,
            outcomes,
        ).1[j]) == ActionView::Delete(batch_entries(s.messages, c + 10 * (j + 1))) by {
            if j > 0 {
                assert(after_answers(s, outcomes).1[j] == tail.1[j - 1]);
                assert(c + 10 + 10 * j == c + 10 * (j + 1));
            }
        }
        assert(after_answers(s, outcomes).1.last() == tail.1.last());
    } else {
        assert(outcomes.len() == 1);
        assert(rest.len() == 0);
        assert(told(s.messages, batch_end(c, len), rest) =~= Seq::<AckView>::empty());
        assert(s.owed + acks0 =~= s.owed + told(s.messages, c, outcomes));
        assert(after_answers(first.0, rest) == (first.0, Seq::<ActionView>::empty()));
        assert(after_answers(s, outcomes).1 =~= seq![first.1]);
    }
}

/// From the identity at the cursor on, each identity that is left is stored
/// once and in order: after the cache's answer for each, whatever it is,
/// each answer but the last was followed by the next identity, and the last
/// by the first delete request, or by the callback's round where no message
/// is to be deleted. The buffers did not change.
pub proof fn lemma_store_phase<CE>(s: HandlerState<CE>, stored: Seq<bool>)
    requires
        s.stage == FlushStage::Storing,
        s.cursor < s.identities.len(),
        stored.len() == s.identities.len() - s.cursor,
    ensures
        after_stores(s, stored).0 == s.enter_delete(0).0,
        after_stores(s, stored).1.len() == stored.len(),
        forall|j: int|
            0 <= j < stored.len() - 1 ==> (#[trigger] after_stores(s, stored).1[j])
                == ActionView::Store(s.identities[s.cursor + j + 1]),
        after_stores(s, stored).1.last() == s.enter_delete(0).1,
    decreases stored.len(),
{
    let first = s.next(EventView::Stored(stored[0]));
    let rest = stored.drop_first();
    if s.cursor + 1 < s.identities.len() {
        lemma_store_phase(first.0, rest);
        let tail = after_stores(first.0, rest);
        assert forall|j: int| 0 <= j < stored.len() - 1 implies (#[trigger] after_stores(
            s,
            stored,
        ).1[j]) == ActionView::Store(s.identities[s.cursor + j + 1]) by {
            if j > 0 {
                assert(after_stores(s, stored).1[j] == tail.1[j - 1]);
            }
        }
        assert(after_stores(s, stored).1.last() == tail.1.last());
    } else {
        assert(rest.len() == 0);
        assert(after_stores(first.0, rest) == (first.0, Seq::<ActionView>::empty()));
        assert(after_stores(s, stored).1 =~= seq![first.1]);
    }
}

/// A whole flush that meets no fatal error. After the results are
/// serialized and the payload is sent, every identity is stored, then every
/// request is sent; the callback's round is told the reports of all
/// requests in their order; only when that round is over, the buffers are
/// emptied and the flush is reported finished, with the completion token
/// signalled if one waited.
pub proof fn lemma_whole_flush<CE>(
    s: HandlerState<CE>,
    stored: Seq<bool>,
    outcomes: Seq<OutcomeView>,
)
    requires
        s.stage == FlushStage::Serializing,
        s.owed == Seq::<AckView>::empty(),
        stored.len() == s.identities.len(),
        outcomes.len() == batch_count(s.messages.len() as int),
    ensures
        ({
            let emitting = s.next(EventView::Serialized);
            let storing = emitting.0.next(EventView::Emitted);
            let deleting = if stored.len() == 0 {
                storing
            } else {
                (after_stores(storing.0, stored).0, after_stores(storing.0, stored).1.last())
            };
            let acking = if outcomes.len() == 0 {
                deleting
            } else {
                (
                    after_answers(deleting.0, outcomes).0,
                    after_answers(deleting.0, outcomes).1.last(),
                )
            };
            let end = acking.0.next(EventView::Acked);
            &&& emitting.1 == ActionView::Emit
            &&& stored.len() > 0 ==> storing.1 == ActionView::Store(s.identities[0])
            &&& outcomes.len() > 0 ==> deleting.1 == ActionView::Delete(
                batch_entries(s.messages, 0),
            )
            &&& acking.1 == ActionView::Ack(told(s.messages, 0, outcomes))
            &&& end.1 == ActionView::Finished { signalled: s.notify }
            &&& end.0 == HandlerState::<CE>::cleared()
        }),
{
    let emitting = s.next(EventView::Serialized);
    let storing = emitting.0.next(EventView::Emitted);
    if stored.len() > 0 {
        lemma_store_phase(storing.0, stored);
    }
    let deleting = if stored.len() == 0 {
        storing
    } else {
        (after_stores(storing.0, stored).0, after_stores(storing.0, stored).1.last())
    };
    if outcomes.len() > 0 {
        lemma_delete_phase(deleting.0, outcomes);
        assert(deleting.0.owed + told(s.messages, 0, outcomes) =~= told(s.messages, 0, outcomes));
    } else {
        assert(told(s.messages, 0, outcomes) =~= Seq::<AckView>::empty());
    }
}

} // verus!
