//! Laws of the inbound bridge: what holds of every message, whatever the
//! codec, the channel and the broker answer and in whatever order.

use crate::inbound::{advance, entry, Disposition, Phase, Request, Signal};
use vstd::prelude::*;

verus! {

/// The phase that a handler is in after the first `n` of `signals`, when it
/// started in `start`.
pub open spec fn phase_after(start: Phase, signals: Seq<Signal>, n: nat) -> Phase
    decreases n,
{
    if n == 0 {
        start
    } else {
        advance(phase_after(start, signals, (n - 1) as nat), signals[n - 1]).0
    }
}

/// What a handler that started in `start` requests in answer to `signals[i]`.
pub open spec fn response(start: Phase, signals: Seq<Signal>, i: int) -> Request {
    advance(phase_after(start, signals, i as nat), signals[i]).1
}

/// How far the handling has come: phases are passed in this order only.
pub open spec fn progress(phase: Phase) -> nat {
    match phase {
        Phase::Decoding => 0,
        Phase::Sending => 1,
        Phase::Acknowledging(_) => 2,
        Phase::Finished(_) => 3,
    }
}

proof fn lemma_progress_grows(start: Phase, signals: Seq<Signal>, m: nat, n: nat)
    requires
        m <= n,
    ensures
        progress(phase_after(start, signals, m)) <= progress(phase_after(start, signals, n)),
    decreases n,
{
    if m < n {
        lemma_progress_grows(start, signals, m, (n - 1) as nat);
    }
}

proof fn lemma_no_decoding_answer(start: Phase, signals: Seq<Signal>, n: nat)
    requires
        start == Phase::Decoding,
        n <= signals.len(),
        forall|j: int| 0 <= j < n ==> !(#[trigger] signals[j] is Decoded),
    ensures
        phase_after(start, signals, n) == Phase::Decoding,
    decreases n,
{
    if n > 0 {
        lemma_no_decoding_answer(start, signals, (n - 1) as nat);
    }
}

/// Law of oversized messages: a message whose payload is longer than the limit
/// is acknowledged as the first thing, and whatever is reported afterwards,
/// it is never decoded and never offered to the channel.
pub proof fn oversized_is_acknowledged_and_dropped(
    len: nat,
    limit: nat,
    signals: Seq<Signal>,
    i: int,
)
    requires
        len > limit,
        0 <= i < signals.len(),
    ensures
        entry(len, limit).1 == Request::Acknowledge,
        response(entry(len, limit).0, signals, i) != Request::Enqueue,
        response(entry(len, limit).0, signals, i) != Request::Decode,
{
    lemma_progress_grows(entry(len, limit).0, signals, 0, i as nat);
}

/// Law of poison messages: where the codec rejects the payload, the answer to
/// the codec's report is to acknowledge the message, and it is never offered
/// to the channel, whatever else is reported and in whatever order.
pub proof fn poison_is_acknowledged_and_dropped(
    len: nat,
    limit: nat,
    signals: Seq<Signal>,
    i: int,
)
    requires
        len <= limit,
        0 <= i < signals.len(),
        forall|j: int|
            0 <= j < signals.len() && (#[trigger] signals[j] is Decoded) ==> signals[j]
                == Signal::Decoded(false),
    ensures
        response(entry(len, limit).0, signals, i) != Request::Enqueue,
        signals[i] is Decoded && (forall|j: int| 0 <= j < i ==> !(#[trigger] signals[j]
            is Decoded)) ==> response(entry(len, limit).0, signals, i) == Request::Acknowledge
            && phase_after(entry(len, limit).0, signals, (i + 1) as nat) == Phase::Acknowledging(
            Disposition::Poison,
        ),
{
    let start = entry(len, limit).0;
    if signals[i] is Decoded && (forall|j: int| 0 <= j < i ==> !(#[trigger] signals[j]
        is Decoded)) {
        lemma_no_decoding_answer(start, signals, i as nat);
    }
}

/// Law of the order of handoff and acknowledgment: if a handler offers a work
/// item to the channel and also acknowledges, then the message was within the
/// limit, the offer comes first, and the acknowledgment is the answer to the
/// channel's report that it took the item.
pub proof fn acknowledgment_follows_handoff(
    len: nat,
    limit: nat,
    signals: Seq<Signal>,
    i: int,
    k: int,
)
    requires
        0 <= i < signals.len(),
        0 <= k < signals.len(),
        response(entry(len, limit).0, signals, i) == Request::Enqueue,
        response(entry(len, limit).0, signals, k) == Request::Acknowledge,
    ensures
        entry(len, limit) == (Phase::Decoding, Request::Decode),
        i < k,
        signals[i] == Signal::Decoded(true),
        signals[k] == Signal::Enqueued(true),
        phase_after(entry(len, limit).0, signals, (k + 1) as nat) == Phase::Acknowledging(
            Disposition::Delivered,
        ),
{
    let start = entry(len, limit).0;
    lemma_progress_grows(start, signals, 0, i as nat);
    if k <= i {
        lemma_progress_grows(start, signals, (k + 1) as nat, i as nat);
    } else {
        lemma_progress_grows(start, signals, (i + 1) as nat, k as nat);
    }
}

/// Law of the waiting handler: while the channel has not answered, a handler
/// whose item is offered to it stays as it is. It neither acknowledges nor
/// finishes, so the broker's delivery is held back until the channel has room.
pub proof fn handler_waits_for_channel(signals: Seq<Signal>, n: nat, i: int)
    requires
        n <= signals.len(),
        0 <= i < n,
        forall|j: int| 0 <= j < n ==> !(#[trigger] signals[j] is Enqueued),
    ensures
        phase_after(Phase::Sending, signals, n) == Phase::Sending,
        response(Phase::Sending, signals, i) == Request::Wait,
    decreases n,
{
    if n > 0 {
        if i < n - 1 {
            handler_waits_for_channel(signals, (n - 1) as nat, i);
        } else if n > 1 {
            handler_waits_for_channel(signals, (n - 1) as nat, 0);
        }
    }
}

/// Law of shutdown: a request to shut down changes nothing for a message that
/// is being handled. The handler stays in its phase and goes on with the
/// operation under way, so it still runs to its end.
pub proof fn shutdown_leaves_handler_alone(phase: Phase)
    ensures
        advance(phase, Signal::ShutdownRequested) == (phase, Request::Wait),
{
}

/// What becomes of a message, by its size and by what the codec and the
/// channel answer.
pub open spec fn disposition_of(len: nat, limit: nat, decoded: bool, enqueued: bool) -> Disposition {
    if len > limit {
        Disposition::Oversized
    } else if !decoded {
        Disposition::Poison
    } else if !enqueued {
        Disposition::Abandoned
    } else {
        Disposition::Delivered
    }
}

/// The reports of a caller that performs each request and answers it: the
/// codec's answer if the payload was decoded, the channel's if an item was
/// offered, the broker's if an acknowledgment was sent.
pub open spec fn answers(len: nat, limit: nat, decoded: bool, enqueued: bool, acked: bool) -> Seq<
    Signal,
> {
    match disposition_of(len, limit, decoded, enqueued) {
        Disposition::Oversized => seq![Signal::Acknowledged(acked)],
        Disposition::Poison => seq![Signal::Decoded(false), Signal::Acknowledged(acked)],
        Disposition::Abandoned => seq![Signal::Decoded(true), Signal::Enqueued(false)],
        Disposition::Delivered => seq![
            Signal::Decoded(true),
            Signal::Enqueued(true),
            Signal::Acknowledged(acked),
        ],
    }
}

/// Law of completion: a handler whose requests are all answered comes to its
/// end, with the disposition that the size of the payload and the answers of
/// codec and channel call for, and whether or not the broker took the
/// acknowledgment. Its last request is to finish.
pub proof fn answered_handler_finishes(
    len: nat,
    limit: nat,
    decoded: bool,
    enqueued: bool,
    acked: bool,
)
    ensures
        ({
            let reports = answers(len, limit, decoded, enqueued, acked);
            &&& phase_after(entry(len, limit).0, reports, reports.len()) == Phase::Finished(
                disposition_of(len, limit, decoded, enqueued),
            )
            &&& response(entry(len, limit).0, reports, reports.len() - 1) == Request::Finish
        }),
{
    let reports = answers(len, limit, decoded, enqueued, acked);
    let start = entry(len, limit).0;
    reveal_with_fuel(phase_after, 4);
    assert(phase_after(start, reports, 0) == start);
}

/// Law of single requests: a handler asks at most once for an item to be
/// enqueued and at most once for the message to be acknowledged.
pub proof fn requests_are_made_once(
    len: nat,
    limit: nat,
    signals: Seq<Signal>,
    j: int,
    k: int,
)
    requires
        0 <= j < signals.len(),
        0 <= k < signals.len(),
        response(entry(len, limit).0, signals, j) == response(entry(len, limit).0, signals, k),
        response(entry(len, limit).0, signals, j) == Request::Enqueue || response(
            entry(len, limit).0,
            signals,
            j,
        ) == Request::Acknowledge,
    ensures
        j == k,
        response(entry(len, limit).0, signals, j) == Request::Acknowledge ==> entry(len, limit).1
            != Request::Acknowledge,
{
    let start = entry(len, limit).0;
    lemma_progress_grows(start, signals, 0, j as nat);
    if j < k {
        lemma_progress_grows(start, signals, (j + 1) as nat, k as nat);
    } else if k < j {
        lemma_progress_grows(start, signals, (k + 1) as nat, j as nat);
    }
}

/// What happens at a bridge whose worker has stopped pulling.
pub enum BridgeEvent {
    /// The broker delivers a message with a payload of this many bytes, and a
    /// handler is begun for it.
    Delivery(nat),
    /// The handler of the delivery with this number, counted from zero, gets
    /// a report.
    Report(nat, Signal),
}

/// The phases of the handlers begun during the first `n` of `events`, in the
/// order of delivery, at a bridge with the size limit `limit`.
pub open spec fn phases_after(limit: nat, events: Seq<BridgeEvent>, n: nat) -> Seq<Phase>
    decreases n,
{
    if n == 0 {
        Seq::empty()
    } else {
        let before = phases_after(limit, events, (n - 1) as nat);
        match events[n - 1] {
            BridgeEvent::Delivery(len) => before.push(entry(len, limit).0),
            BridgeEvent::Report(handler, signal) => if handler < before.len() {
                before.update(handler as int, advance(before[handler as int], signal).0)
            } else {
                before
            },
        }
    }
}

/// Whether `events[m]` is the channel taking the item that a handler offers.
pub open spec fn channel_takes(limit: nat, events: Seq<BridgeEvent>, m: int) -> bool {
    let before = phases_after(limit, events, m as nat);
    events[m] matches BridgeEvent::Report(handler, Signal::Enqueued(true)) && handler
        < before.len() && before[handler as int] == Phase::Sending
}

/// How many items the channel holds after the first `n` of `events`: as many
/// as it took, since none is pulled.
pub open spec fn queued_after(limit: nat, events: Seq<BridgeEvent>, n: nat) -> nat
    decreases n,
{
    if n == 0 {
        0
    } else {
        queued_after(limit, events, (n - 1) as nat) + if channel_takes(limit, events, n - 1) {
            1nat
        } else {
            0nat
        }
    }
}

/// How many of the handlers hold a delivery that was received and is neither
/// dropped nor in the channel yet.
pub open spec fn holding(phases: Seq<Phase>) -> nat
    decreases phases.len(),
{
    if phases.len() == 0 {
        0
    } else {
        holding(phases.drop_last()) + if phases.last() is Decoding || phases.last() is Sending {
            1nat
        } else {
            0nat
        }
    }
}

/// How many of the handlers have not come to their end.
pub open spec fn executing(phases: Seq<Phase>) -> nat
    decreases phases.len(),
{
    if phases.len() == 0 {
        0
    } else {
        executing(phases.drop_last()) + if phases.last() is Finished {
            0nat
        } else {
            1nat
        }
    }
}

proof fn lemma_holding_is_executing(phases: Seq<Phase>)
    ensures
        holding(phases) <= executing(phases),
    decreases phases.len(),
{
    if phases.len() > 0 {
        lemma_holding_is_executing(phases.drop_last());
    }
}

/// Law of backpressure: at a bridge whose worker has stopped pulling, and
/// whose channel takes an item only while it holds fewer than `capacity`, the
/// deliveries that were received and not dropped are never more than the
/// capacity of the channel and the number of handlers that are executing
/// taken together. Every delivery that is not in the channel is held by a
/// handler that has not returned.
pub proof fn backpressure_bounds_deliveries(
    limit: nat,
    capacity: nat,
    events: Seq<BridgeEvent>,
    n: nat,
)
    requires
        n <= events.len(),
        forall|m: int|
            0 <= m < events.len() && #[trigger] channel_takes(limit, events, m) ==> queued_after(
                limit,
                events,
                m as nat,
            ) < capacity,
    ensures
        queued_after(limit, events, n) <= capacity,
        holding(phases_after(limit, events, n)) <= executing(phases_after(limit, events, n)),
        holding(phases_after(limit, events, n)) + queued_after(limit, events, n) <= capacity
            + executing(phases_after(limit, events, n)),
    decreases n,
{
    lemma_holding_is_executing(phases_after(limit, events, n));
    if n > 0 {
        backpressure_bounds_deliveries(limit, capacity, events, (n - 1) as nat);
    }
}

} // verus!
