use apalis_pubsub::sink::{into_message, DrainStatus, DrainStep, FlushReport, OutboundTask, PubSubSink};
use apalis_pubsub::task::{PubSubTask, PubSubTaskId};
use apalis_pubsub::utils::{PubSubContext, Settled};
use apalis_pubsub::PubSubError;

fn item(n: u8) -> OutboundTask<Settled> {
    PubSubTask {
        args: vec![n],
        task_id: Some(PubSubTaskId::Minted(n as u64)),
        ctx: PubSubContext::with_handle(format!("ack-{}", n), Settled),
    }
}

fn payloads(batch: &[OutboundTask<Settled>]) -> Vec<u8> {
    batch.iter().map(|task| task.args[0]).collect()
}

fn batch_of(step: DrainStep<OutboundTask<Settled>>) -> Vec<OutboundTask<Settled>> {
    match step {
        DrainStep::Flush(batch) => batch,
        _ => panic!("no flush was started"),
    }
}

fn is_ready<T>(step: &DrainStep<T>) -> bool {
    matches!(step, DrainStep::Ready)
}

fn is_poll<T>(step: &DrainStep<T>) -> bool {
    matches!(step, DrainStep::Poll)
}

#[test]
fn new_sink_is_drained() {
    let mut sink: PubSubSink<Settled> = PubSubSink::new();
    assert_eq!(sink.buffered(), 0);
    assert!(!sink.is_flushing());
    assert!(is_ready(&sink.drain()));
    assert!(!sink.is_flushing());
}

#[test]
fn three_items_are_published_in_one_flush_and_the_slot_is_freed() {
    let mut sink = PubSubSink::new();
    sink.accept(item(1));
    sink.accept(item(2));
    sink.accept(item(3));
    assert_eq!(sink.buffered(), 3);

    let mut publishes = Vec::new();
    let mut polls = 0;
    loop {
        match sink.drain() {
            DrainStep::Ready => break,
            DrainStep::Flush(batch) => publishes.extend(batch.into_iter().map(into_message)),
            DrainStep::Poll => {
                polls += 1;
                let report = if polls < 3 { FlushReport::Running } else { FlushReport::Succeeded };
                let status = sink.flush_polled(report);
                if polls < 3 {
                    assert_eq!(status, DrainStatus::Pending);
                    assert!(sink.is_flushing());
                } else {
                    assert_eq!(status, DrainStatus::Ready);
                }
            }
        }
    }
    let data: Vec<Vec<u8>> = publishes.into_iter().map(|message| message.data).collect();
    assert_eq!(data, vec![vec![1u8], vec![2u8], vec![3u8]]);
    assert!(!sink.is_flushing());
    assert_eq!(sink.buffered(), 0);
}

#[test]
fn failed_publish_is_reported_and_nothing_is_sent_again() {
    let mut sink = PubSubSink::new();
    sink.accept(item(1));
    sink.accept(item(2));
    sink.accept(item(3));
    let batch = batch_of(sink.drain());
    assert_eq!(payloads(&batch), vec![1, 2, 3]);
    assert!(sink.is_flushing());

    // The second of the three publishes fails.
    let status = sink.flush_polled(FlushReport::Failed("publish 2 refused".to_string()));
    assert_eq!(
        status,
        DrainStatus::Failed(PubSubError::Client("publish 2 refused".to_string()))
    );
    assert!(!sink.is_flushing());
    assert_eq!(sink.buffered(), 0);
    assert!(is_ready(&sink.drain()));
    assert!(!sink.is_flushing());
}

#[test]
fn single_drain_hands_over_every_buffered_item() {
    let mut sink = PubSubSink::new();
    for n in 0..10u8 {
        sink.accept(item(n));
    }
    let batch = batch_of(sink.drain());
    assert_eq!(payloads(&batch), (0..10u8).collect::<Vec<u8>>());
    assert_eq!(batch[4].ctx.ack_id, "ack-4");
    assert_eq!(batch[4].task_id, Some(PubSubTaskId::Minted(4)));
    assert_eq!(sink.buffered(), 0);
}

#[test]
fn accept_then_close_publishes_each_item_exactly_once() {
    for polls_needed in 0..5 {
        let mut sink = PubSubSink::new();
        sink.accept(item(7));
        sink.accept(item(8));
        let mut published = Vec::new();
        let mut polls = 0;
        loop {
            match sink.close() {
                DrainStep::Ready => break,
                DrainStep::Flush(batch) => published.extend(payloads(&batch)),
                DrainStep::Poll => {
                    let report = if polls < polls_needed {
                        FlushReport::Running
                    } else {
                        FlushReport::Succeeded
                    };
                    polls += 1;
                    sink.flush_polled(report);
                }
            }
        }
        assert_eq!(published, vec![7, 8]);
        assert_eq!(polls, polls_needed + 1);
    }
}

#[test]
fn drain_during_a_flush_starts_no_second_one() {
    let mut sink = PubSubSink::new();
    sink.accept(item(1));
    assert_eq!(payloads(&batch_of(sink.drain())), vec![1]);
    sink.accept(item(2));
    assert!(is_poll(&sink.drain()));
    assert!(is_poll(&sink.drain()));
    assert_eq!(sink.buffered(), 1);
    assert!(sink.is_flushing());
}

#[test]
fn items_accepted_during_a_flush_wait_for_the_next_drain() {
    let mut sink = PubSubSink::new();
    sink.accept(item(1));
    assert_eq!(payloads(&batch_of(sink.drain())), vec![1]);
    sink.accept(item(2));
    sink.accept(item(3));
    // The flush that ends reports ready although items are buffered again.
    assert_eq!(sink.flush_polled(FlushReport::Succeeded), DrainStatus::Ready);
    assert_eq!(sink.buffered(), 2);
    assert!(!sink.is_flushing());
    assert_eq!(payloads(&batch_of(sink.drain())), vec![2, 3]);
    assert_eq!(sink.flush_polled(FlushReport::Succeeded), DrainStatus::Ready);
    assert!(is_ready(&sink.drain()));
}

#[test]
fn items_accepted_during_a_failed_flush_are_kept() {
    let mut sink = PubSubSink::new();
    sink.accept(item(1));
    assert_eq!(payloads(&batch_of(sink.drain())), vec![1]);
    sink.accept(item(2));
    assert_eq!(
        sink.flush_polled(FlushReport::Failed("down".to_string())),
        DrainStatus::Failed(PubSubError::Client("down".to_string()))
    );
    assert_eq!(payloads(&batch_of(sink.drain())), vec![2]);
}

#[test]
fn poll_report_without_a_flush_changes_nothing() {
    let mut sink = PubSubSink::new();
    sink.accept(item(1));
    assert_eq!(sink.flush_polled(FlushReport::Failed("stray".to_string())), DrainStatus::Ready);
    assert_eq!(sink.flush_polled(FlushReport::Running), DrainStatus::Ready);
    assert_eq!(sink.buffered(), 1);
    assert!(!sink.is_flushing());
    assert_eq!(payloads(&batch_of(sink.drain())), vec![1]);
}

#[test]
fn running_flush_stays_in_progress() {
    let mut sink = PubSubSink::new();
    sink.accept(item(1));
    batch_of(sink.drain());
    for _ in 0..4 {
        assert_eq!(sink.flush_polled(FlushReport::Running), DrainStatus::Pending);
        assert!(sink.is_flushing());
    }
}

#[test]
fn clone_keeps_the_buffer_and_drops_the_flush() {
    let mut sink = PubSubSink::new();
    sink.accept(item(1));
    batch_of(sink.drain());
    sink.accept(item(2));
    sink.accept(item(3));
    assert!(sink.is_flushing());
    let mut copy = sink.clone();
    assert!(!copy.is_flushing());
    assert_eq!(copy.buffered(), 2);
    assert_eq!(payloads(&batch_of(copy.drain())), vec![2, 3]);
    // The sink that was copied still has its flush and its two items.
    assert!(sink.is_flushing());
    assert_eq!(sink.buffered(), 2);
}

#[test]
fn message_of_a_task_is_its_payload() {
    let task = PubSubTask {
        args: vec![9u8, 8, 7],
        task_id: Some(PubSubTaskId::Supplied(1)),
        ctx: PubSubContext::with_handle("a".to_string(), Settled),
    };
    assert_eq!(into_message(task).data, vec![9u8, 8, 7]);
    let empty = PubSubTask {
        args: Vec::new(),
        task_id: None,
        ctx: PubSubContext::with_handle("a".to_string(), Settled),
    };
    assert_eq!(into_message(empty).data, Vec::<u8>::new());
}
