use completion_handler::flush::{FatalError, FlushAction, FlushEvent, FlushStage};
use completion_handler::handler::{SqsCompletionHandler, SqsCompletionHandlerMessage};
use completion_handler::message::{
    Completion, DeleteEntry, DeleteOutcome, OutputEvent, QueueMessage,
};
use completion_handler::policy::CompletionPolicy;
use std::time::Duration;
use tokio::sync::oneshot::channel;
use tokio::sync::oneshot::error::TryRecvError;

/// What one flush did, in the order in which it did it.
#[derive(Debug, Default)]
struct Trace {
    steps: Vec<String>,
    serialized: Vec<Vec<u32>>,
    emitted: usize,
    stored: Vec<Vec<u8>>,
    requests: Vec<Vec<DeleteEntry>>,
    told: Vec<Result<String, String>>,
    finished: Option<bool>,
    fatal: Option<FatalError>,
}

fn all_deleted(batch: &[DeleteEntry]) -> DeleteOutcome {
    DeleteOutcome::Reported {
        successful: batch.iter().map(|e| e.id.clone()).collect(),
        failed: vec![],
    }
}

fn request_fails(_batch: &[DeleteEntry]) -> DeleteOutcome {
    DeleteOutcome::Failed
}

fn drive(
    h: &mut SqsCompletionHandler<u32>,
    first: FlushAction,
    answer: fn(&[DeleteEntry]) -> DeleteOutcome,
) -> Trace {
    let mut trace = Trace::default();
    let mut action = first;
    loop {
        let event = match action {
            FlushAction::Nothing => {
                trace.steps.push("nothing".to_string());
                return trace;
            }
            FlushAction::Serialize => {
                trace.steps.push("serialize".to_string());
                trace.serialized.push(h.completed_events().clone());
                FlushEvent::Serialized
            }
            FlushAction::Emit => {
                trace.steps.push("emit".to_string());
                trace.emitted += 1;
                FlushEvent::Emitted
            }
            FlushAction::Store(id) => {
                trace.steps.push("store".to_string());
                trace.stored.push(id);
                FlushEvent::Stored(true)
            }
            FlushAction::Delete(batch) => {
                trace.steps.push("delete".to_string());
                let outcome = answer(&batch);
                trace.requests.push(batch);
                FlushEvent::Deleted(outcome)
            }
            FlushAction::Ack(told) => {
                trace.steps.push("ack".to_string());
                trace.told.extend(told);
                FlushEvent::Acked
            }
            FlushAction::Finished { signalled } => {
                trace.steps.push("finished".to_string());
                trace.finished = Some(signalled);
                return trace;
            }
            FlushAction::Fatal(e) => {
                trace.steps.push("fatal".to_string());
                trace.fatal = Some(e);
                return trace;
            }
        };
        action = h.step(event);
    }
}

fn message(i: usize) -> QueueMessage {
    QueueMessage { message_id: format!("id-{}", i), ack_token: format!("tok-{}", i) }
}

fn total(result: u32, identities: Vec<Vec<u8>>) -> OutputEvent<u32, String> {
    OutputEvent { completed_event: Completion::Total(result), identities }
}

fn partial(result: u32, identities: Vec<Vec<u8>>) -> OutputEvent<u32, String> {
    OutputEvent {
        completed_event: Completion::Partial((result, "half done".to_string())),
        identities,
    }
}

fn error(identities: Vec<Vec<u8>>) -> OutputEvent<u32, String> {
    OutputEvent { completed_event: Completion::Error("failed".to_string()), identities }
}

fn handler(max_messages: u16) -> SqsCompletionHandler<u32> {
    SqsCompletionHandler::new(CompletionPolicy::new(max_messages, Duration::from_secs(3600)))
}

fn lengths(h: &SqsCompletionHandler<u32>) -> (usize, usize, usize) {
    (h.completed_events().len(), h.identity_count(), h.message_count())
}

#[test]
fn new_handler_is_empty_and_idle() {
    let h = handler(3);
    assert_eq!(lengths(&h), (0, 0, 0));
    assert_eq!(h.stage(), FlushStage::Idle);
}

#[test]
fn total_outcome_fills_all_three_buffers() {
    let mut h = handler(10);
    let action = h.mark_complete(message(0), total(7, vec![vec![1, 2], vec![3]]));
    assert_eq!(action, FlushAction::Nothing);
    assert_eq!(lengths(&h), (1, 2, 1));
    assert_eq!(h.completed_events(), &vec![7]);
    assert_eq!(h.stage(), FlushStage::Idle);
}

#[test]
fn partial_outcome_adds_no_deletable_message() {
    let mut h = handler(10);
    h.mark_complete(message(0), total(1, vec![vec![9]]));
    let before = lengths(&h);
    let action = h.mark_complete(message(1), partial(2, vec![vec![1], vec![2]]));
    assert_eq!(action, FlushAction::Nothing);
    assert_eq!(lengths(&h), (before.0 + 1, before.1 + 2, before.2));
    assert_eq!(h.completed_events(), &vec![1, 2]);
}

#[test]
fn error_outcome_changes_no_buffer() {
    let mut h = handler(10);
    h.mark_complete(message(0), total(1, vec![vec![9]]));
    let before = lengths(&h);
    let action = h.mark_complete(message(1), error(vec![vec![1], vec![2]]));
    assert_eq!(action, FlushAction::Nothing);
    assert_eq!(lengths(&h), before);
    assert_eq!(h.completed_events(), &vec![1]);
}

#[test]
fn flush_comes_exactly_at_the_count_threshold() {
    for max in 1u16..8 {
        let mut h = handler(max);
        let mut flushes = 0;
        for i in 0..usize::from(max) {
            let action = h.mark_complete(message(i), total(i as u32, vec![vec![i as u8]]));
            if i + 1 < usize::from(max) {
                assert_eq!(action, FlushAction::Nothing);
                assert_eq!(lengths(&h), (i + 1, i + 1, i + 1));
            } else {
                assert_eq!(action, FlushAction::Serialize);
                let trace = drive(&mut h, action, all_deleted);
                assert_eq!(trace.finished, Some(false));
                assert_eq!(trace.serialized.len(), 1);
                assert_eq!(trace.serialized[0].len(), usize::from(max));
                flushes += 1;
            }
        }
        assert_eq!(flushes, 1);
        assert_eq!(lengths(&h), (0, 0, 0));
        assert_eq!(h.stage(), FlushStage::Idle);
    }
}

#[test]
fn three_totals_flush_once_with_one_request() {
    let mut h = handler(3);
    assert_eq!(h.mark_complete(message(0), total(10, vec![vec![0]])), FlushAction::Nothing);
    assert_eq!(h.mark_complete(message(1), total(11, vec![vec![1]])), FlushAction::Nothing);
    assert_eq!(lengths(&h), (2, 2, 2));
    let action = h.mark_complete(message(2), total(12, vec![vec![2]]));
    assert_eq!(action, FlushAction::Serialize);
    let trace = drive(&mut h, action, all_deleted);
    assert_eq!(trace.serialized, vec![vec![10, 11, 12]]);
    assert_eq!(trace.emitted, 1);
    assert_eq!(trace.stored, vec![vec![0], vec![1], vec![2]]);
    assert_eq!(trace.requests.len(), 1);
    assert_eq!(trace.requests[0].len(), 3);
    assert_eq!(
        trace.told,
        vec![Ok("id-0".to_string()), Ok("id-1".to_string()), Ok("id-2".to_string())]
    );
    assert_eq!(trace.finished, Some(false));
    assert_eq!(lengths(&h), (0, 0, 0));
}

#[test]
fn partial_then_ack_all_stores_identity_and_deletes_nothing() {
    let mut h = handler(100);
    assert_eq!(h.mark_complete(message(0), partial(5, vec![vec![42, 43]])), FlushAction::Nothing);
    assert_eq!(h.message_count(), 0);
    let action = h.ack_all(None);
    assert_eq!(action, FlushAction::Serialize);
    let trace = drive(&mut h, action, all_deleted);
    assert_eq!(trace.steps, vec!["serialize", "emit", "store", "ack", "finished"]);
    assert_eq!(trace.serialized, vec![vec![5]]);
    assert_eq!(trace.stored, vec![vec![42, 43]]);
    assert!(trace.requests.is_empty());
    assert!(trace.told.is_empty());
    assert_eq!(lengths(&h), (0, 0, 0));
}

#[test]
fn remainder_gets_a_last_smaller_request() {
    for (k, r) in [(0usize, 1usize), (0, 9), (1, 1), (2, 3), (3, 9)] {
        let mut h = handler(1000);
        let n = 10 * k + r;
        for i in 0..n {
            assert_eq!(h.mark_complete(message(i), total(i as u32, vec![])), FlushAction::Nothing);
        }
        let action = h.ack_all(None);
        let trace = drive(&mut h, action, all_deleted);
        assert_eq!(trace.requests.len(), k + 1);
        for request in &trace.requests[..k] {
            assert_eq!(request.len(), 10);
        }
        assert_eq!(trace.requests[k].len(), r);
        let ids: Vec<String> =
            trace.requests.iter().flat_map(|b| b.iter().map(|e| e.id.clone())).collect();
        let expected: Vec<String> = (0..n).map(|i| format!("id-{}", i)).collect();
        assert_eq!(ids, expected);
        assert_eq!(trace.told.len(), n);
    }
}

#[test]
fn full_batches_leave_no_empty_request() {
    let mut h = handler(1000);
    for i in 0..20 {
        h.mark_complete(message(i), total(i as u32, vec![]));
    }
    let action = h.ack_all(None);
    let trace = drive(&mut h, action, all_deleted);
    assert_eq!(trace.requests.len(), 2);
    assert_eq!(trace.requests[0].len(), 10);
    assert_eq!(trace.requests[1].len(), 10);
}

#[test]
fn failed_request_fails_each_of_its_messages() {
    let mut h = handler(1000);
    for i in 0..12 {
        h.mark_complete(message(i), total(i as u32, vec![]));
    }
    let action = h.ack_all(None);
    let trace = drive(&mut h, action, request_fails);
    assert_eq!(trace.requests.len(), 2);
    let expected: Vec<Result<String, String>> = (0..12).map(|i| Err(format!("id-{}", i))).collect();
    assert_eq!(trace.told, expected);
    assert_eq!(lengths(&h), (0, 0, 0));
}

#[test]
fn answers_are_told_in_request_order() {
    let mut h = handler(1000);
    for i in 0..11 {
        h.mark_complete(message(i), total(i as u32, vec![]));
    }
    assert_eq!(h.ack_all(None), FlushAction::Serialize);
    assert_eq!(h.step(FlushEvent::Serialized), FlushAction::Emit);
    let first = h.step(FlushEvent::Emitted);
    assert!(matches!(first, FlushAction::Delete(ref b) if b.len() == 10));
    assert_eq!(h.stage(), FlushStage::Deleting);
    let second = h.step(FlushEvent::Deleted(DeleteOutcome::Failed));
    assert_eq!(
        second,
        FlushAction::Delete(vec![DeleteEntry {
            id: "id-10".to_string(),
            receipt_handle: "tok-10".to_string()
        }])
    );
    let told = h.step(FlushEvent::Deleted(DeleteOutcome::Reported {
        successful: vec![],
        failed: vec!["id-10".to_string()],
    }));
    let expected: Vec<Result<String, String>> = (0..11).map(|i| Err(format!("id-{}", i))).collect();
    assert_eq!(told, FlushAction::Ack(expected));
    assert_eq!(h.stage(), FlushStage::Acking);
    assert_eq!(lengths(&h), (11, 0, 11));
    assert_eq!(h.step(FlushEvent::Acked), FlushAction::Finished { signalled: false });
    assert_eq!(lengths(&h), (0, 0, 0));
}

#[test]
fn success_and_failure_in_one_answer() {
    let mut h = handler(1000);
    h.mark_complete(
        QueueMessage { message_id: "A".to_string(), ack_token: "ta".to_string() },
        total(1, vec![]),
    );
    h.mark_complete(
        QueueMessage { message_id: "B".to_string(), ack_token: "tb".to_string() },
        total(2, vec![]),
    );
    h.ack_all(None);
    h.step(FlushEvent::Serialized);
    let request = h.step(FlushEvent::Emitted);
    assert_eq!(
        request,
        FlushAction::Delete(vec![
            DeleteEntry { id: "A".to_string(), receipt_handle: "ta".to_string() },
            DeleteEntry { id: "B".to_string(), receipt_handle: "tb".to_string() },
        ])
    );
    let told = h.step(FlushEvent::Deleted(DeleteOutcome::Reported {
        successful: vec!["A".to_string()],
        failed: vec!["B".to_string()],
    }));
    assert_eq!(told, FlushAction::Ack(vec![Ok("A".to_string()), Err("B".to_string())]));
}

#[test]
fn token_is_signalled_after_stores_and_acks() {
    let mut h = handler(1000);
    for i in 0..12 {
        h.mark_complete(message(i), total(i as u32, vec![vec![i as u8]]));
    }
    let (token, mut waiting) = channel::<()>();
    let mut steps: Vec<String> = Vec::new();
    let mut action = h.ack_all(Some(token));
    loop {
        let event = match action {
            FlushAction::Serialize => {
                steps.push("serialize".to_string());
                FlushEvent::Serialized
            }
            FlushAction::Emit => {
                steps.push("emit".to_string());
                FlushEvent::Emitted
            }
            FlushAction::Store(_) => {
                steps.push("store".to_string());
                FlushEvent::Stored(true)
            }
            FlushAction::Delete(batch) => {
                steps.push("delete".to_string());
                FlushEvent::Deleted(all_deleted(&batch))
            }
            FlushAction::Ack(told) => {
                steps.push("ack".to_string());
                assert_eq!(told.len(), 12);
                FlushEvent::Acked
            }
            FlushAction::Finished { signalled } => {
                assert!(signalled);
                break;
            }
            other => panic!("unexpected action {:?}", other),
        };
        assert_eq!(waiting.try_recv(), Err(TryRecvError::Empty));
        action = h.step(event);
    }
    assert_eq!(waiting.try_recv(), Ok(()));
    let mut expected = vec!["serialize".to_string(), "emit".to_string()];
    expected.extend((0..12).map(|_| "store".to_string()));
    expected.extend(["delete", "delete", "ack"].iter().map(|s| s.to_string()));
    assert_eq!(steps, expected);
}

#[test]
fn automatic_flush_signals_no_token() {
    let mut h = handler(1);
    let action = h.mark_complete(message(0), total(1, vec![]));
    let trace = drive(&mut h, action, all_deleted);
    assert_eq!(trace.finished, Some(false));
}

#[test]
fn ack_all_without_token_asks_for_no_signal() {
    let mut h = handler(1000);
    let action = h.ack_all(None);
    let trace = drive(&mut h, action, all_deleted);
    assert_eq!(trace.finished, Some(false));
}

#[test]
fn empty_flush_runs_through() {
    let mut h = handler(1000);
    let (token, mut waiting) = channel::<()>();
    let action = h.ack_all(Some(token));
    assert_eq!(action, FlushAction::Serialize);
    assert_eq!(waiting.try_recv(), Err(TryRecvError::Empty));
    let trace = drive(&mut h, action, all_deleted);
    assert_eq!(trace.steps, vec!["serialize", "emit", "ack", "finished"]);
    assert_eq!(trace.serialized, vec![Vec::<u32>::new()]);
    assert!(trace.stored.is_empty());
    assert!(trace.requests.is_empty());
    assert!(trace.told.is_empty());
    assert_eq!(trace.finished, Some(true));
    assert_eq!(waiting.try_recv(), Ok(()));
}

#[test]
fn zero_count_threshold_flushes_on_every_outcome() {
    let mut h = handler(0);
    let action = h.mark_complete(message(0), error(vec![]));
    assert_eq!(action, FlushAction::Serialize);
    let trace = drive(&mut h, action, all_deleted);
    assert_eq!(trace.steps, vec!["serialize", "emit", "ack", "finished"]);
    let action = h.mark_complete(message(1), total(1, vec![]));
    assert_eq!(action, FlushAction::Serialize);
    let trace = drive(&mut h, action, all_deleted);
    assert_eq!(trace.requests.len(), 1);
    assert_eq!(lengths(&h), (0, 0, 0));
}

#[test]
fn zero_time_threshold_flushes_on_every_outcome() {
    let mut h: SqsCompletionHandler<u32> =
        SqsCompletionHandler::new(CompletionPolicy::new(1000, Duration::from_secs(0)));
    let action = h.mark_complete(message(0), partial(1, vec![]));
    assert_eq!(action, FlushAction::Serialize);
}

#[test]
fn elapsed_time_alone_begins_a_flush() {
    let mut h = handler(1000);
    let action = h.mark_complete_at(message(0), total(1, vec![]), Duration::from_secs(3599));
    assert_eq!(action, FlushAction::Nothing);
    let action = h.mark_complete_at(message(1), total(2, vec![]), Duration::from_secs(3600));
    assert_eq!(action, FlushAction::Serialize);
    assert_eq!(h.stage(), FlushStage::Serializing);
    assert_eq!(lengths(&h), (2, 0, 2));
}

#[test]
fn serialize_failure_is_fatal_and_clears() {
    let mut h = handler(1000);
    h.mark_complete(message(0), total(1, vec![vec![1]]));
    let (token, mut waiting) = channel::<()>();
    h.ack_all(Some(token));
    assert_eq!(h.step(FlushEvent::SerializeFailed), FlushAction::Fatal(FatalError::Serialize));
    assert_eq!(lengths(&h), (0, 0, 0));
    assert_eq!(h.stage(), FlushStage::Idle);
    assert_eq!(waiting.try_recv(), Err(TryRecvError::Closed));
}

#[test]
fn emit_failure_is_fatal_and_clears() {
    let mut h = handler(1000);
    h.mark_complete(message(0), total(1, vec![vec![1]]));
    h.ack_all(None);
    assert_eq!(h.step(FlushEvent::Serialized), FlushAction::Emit);
    assert_eq!(h.step(FlushEvent::EmitFailed), FlushAction::Fatal(FatalError::Emit));
    assert_eq!(lengths(&h), (0, 0, 0));
    assert_eq!(h.stage(), FlushStage::Idle);
}

#[test]
fn cache_failure_does_not_stop_the_flush() {
    let mut h = handler(1000);
    h.mark_complete(message(0), total(1, vec![vec![1], vec![2]]));
    h.ack_all(None);
    h.step(FlushEvent::Serialized);
    assert_eq!(h.step(FlushEvent::Emitted), FlushAction::Store(vec![1]));
    assert_eq!(h.step(FlushEvent::Stored(false)), FlushAction::Store(vec![2]));
    let request = h.step(FlushEvent::Stored(false));
    assert!(matches!(request, FlushAction::Delete(ref b) if b.len() == 1));
}

#[test]
fn unexpected_event_changes_nothing() {
    let mut h = handler(1000);
    h.mark_complete(message(0), total(1, vec![vec![1]]));
    assert_eq!(h.step(FlushEvent::Acked), FlushAction::Fatal(FatalError::Protocol));
    assert_eq!(lengths(&h), (1, 1, 1));
    assert_eq!(h.stage(), FlushStage::Idle);
    h.ack_all(None);
    assert_eq!(h.step(FlushEvent::Emitted), FlushAction::Fatal(FatalError::Protocol));
    assert_eq!(h.stage(), FlushStage::Serializing);
    assert_eq!(lengths(&h), (1, 1, 1));
}

#[test]
fn route_message_applies_the_command() {
    let mut h = handler(2);
    let first: SqsCompletionHandlerMessage<u32, String> =
        SqsCompletionHandlerMessage::mark_complete { msg: message(0), completed: total(1, vec![]) };
    assert_eq!(h.route_message(first), FlushAction::Nothing);
    assert_eq!(lengths(&h), (1, 0, 1));
    let (token, mut waiting) = channel::<()>();
    let drain: SqsCompletionHandlerMessage<u32, String> =
        SqsCompletionHandlerMessage::ack_all { notify: Some(token) };
    let action = h.route_message(drain);
    assert_eq!(action, FlushAction::Serialize);
    let trace = drive(&mut h, action, all_deleted);
    assert_eq!(trace.finished, Some(true));
    assert_eq!(waiting.try_recv(), Ok(()));
    assert_eq!(trace.told, vec![Ok("id-0".to_string())]);
}

#[test]
fn buffers_fill_again_after_a_flush() {
    let mut h = handler(2);
    h.mark_complete(message(0), total(1, vec![]));
    let action = h.mark_complete(message(1), total(2, vec![]));
    drive(&mut h, action, all_deleted);
    assert_eq!(h.mark_complete(message(2), total(3, vec![])), FlushAction::Nothing);
    assert_eq!(lengths(&h), (1, 0, 1));
    let action = h.mark_complete(message(3), total(4, vec![]));
    let trace = drive(&mut h, action, all_deleted);
    assert_eq!(trace.serialized, vec![vec![3, 4]]);
    assert_eq!(trace.told, vec![Ok("id-2".to_string()), Ok("id-3".to_string())]);
}

#[test]
fn handler_stays_well_formed_through_a_flush() {
    let mut h = handler(1000);
    assert!(h.is_well_formed());
    for i in 0..11 {
        h.mark_complete(message(i), total(i as u32, vec![vec![1]]));
        assert!(h.is_well_formed());
    }
    h.mark_complete(message(11), partial(11, vec![]));
    assert!(h.is_well_formed());
    let mut action = h.ack_all(None);
    let mut steps = 0;
    loop {
        assert!(h.is_well_formed());
        let event = match action {
            FlushAction::Serialize => FlushEvent::Serialized,
            FlushAction::Emit => FlushEvent::Emitted,
            FlushAction::Store(_) => FlushEvent::Stored(true),
            FlushAction::Delete(_) => FlushEvent::Deleted(DeleteOutcome::Failed),
            FlushAction::Ack(_) => FlushEvent::Acked,
            _ => break,
        };
        action = h.step(event);
        steps += 1;
    }
    assert_eq!(steps, 2 + 11 + 2 + 1);
    assert_eq!(action, FlushAction::Finished { signalled: false });
}
