//! Laws of the outbound sink: what holds of every way of using one.

use crate::sink::{FlushReport, SinkModel};
use vstd::prelude::*;

verus! {

/// One use of a sink.
pub enum SinkOp<T> {
    /// `accept` of this item.
    Accept(T),
    /// `drain`, or `close`.
    Drain,
    /// `flush_polled` with this report.
    Polled(FlushReport),
}

impl<T> SinkModel<T> {
    /// The sink after `op`.
    pub open spec fn apply(self, op: SinkOp<T>) -> Self {
        match op {
            SinkOp::Accept(item) => self.accept(item),
            SinkOp::Drain => self.drain(),
            SinkOp::Polled(report) => self.polled(report),
        }
    }

    /// The items that `op` hands to the broker: the batch of a `drain`, and
    /// nothing for any other use.
    pub open spec fn handed_over(self, op: SinkOp<T>) -> Seq<T> {
        match op {
            SinkOp::Drain => self.batch(),
            _ => Seq::empty(),
        }
    }
}

/// The sink after the first `n` of `ops`, starting with nothing in it.
pub open spec fn sink_after<T>(ops: Seq<SinkOp<T>>, n: nat) -> SinkModel<T>
    decreases n,
{
    if n == 0 {
        SinkModel::empty()
    } else {
        sink_after(ops, (n - 1) as nat).apply(ops[n - 1])
    }
}

/// The items handed to the broker during the first `n` of `ops`, in the order
/// in which they were handed over.
pub open spec fn published<T>(ops: Seq<SinkOp<T>>, n: nat) -> Seq<T>
    decreases n,
{
    if n == 0 {
        Seq::empty()
    } else {
        published(ops, (n - 1) as nat) + sink_after(ops, (n - 1) as nat).handed_over(ops[n - 1])
    }
}

/// The items accepted during the first `n` of `ops`, in the order of arrival.
pub open spec fn accepted<T>(ops: Seq<SinkOp<T>>, n: nat) -> Seq<T>
    decreases n,
{
    if n == 0 {
        Seq::empty()
    } else {
        match ops[n - 1] {
            SinkOp::Accept(item) => accepted(ops, (n - 1) as nat).push(item),
            _ => accepted(ops, (n - 1) as nat),
        }
    }
}

/// Law of the sink: however a sink is used, every accepted item is either
/// still buffered or was handed to the broker, each exactly once and in the
/// order of acceptance. How often `drain` is called and what the polls of a
/// flush report makes no difference to that. So once the buffer is empty,
/// what was handed to the broker is exactly what was accepted.
pub proof fn accepted_items_are_published_once<T>(ops: Seq<SinkOp<T>>, n: nat)
    requires
        n <= ops.len(),
    ensures
        published(ops, n) + sink_after(ops, n).buffer == accepted(ops, n),
        sink_after(ops, n).buffer.len() == 0 ==> published(ops, n) == accepted(ops, n),
    decreases n,
{
    if n > 0 {
        let m = (n - 1) as nat;
        accepted_items_are_published_once(ops, m);
        assert(published(ops, n) + sink_after(ops, n).buffer =~= accepted(ops, n));
    }
    assert(published(ops, n) + Seq::<T>::empty() =~= published(ops, n));
}

/// Law of the single flush: while a flush is in progress no other is started.
/// A `drain` then hands nothing to the broker and leaves the sink as it is.
pub proof fn one_flush_at_a_time<T>(sink: SinkModel<T>)
    requires
        sink.flushing,
    ensures
        sink.handed_over(SinkOp::Drain).len() == 0,
        sink.apply(SinkOp::Drain) == sink,
{
}

/// Law of the batch: a single `drain` of an idle sink that holds `items` hands
/// all of them to one flush, in the order of acceptance, and leaves nothing
/// buffered.
pub proof fn drain_hands_over_whole_buffer<T>(items: Seq<T>)
    requires
        items.len() > 0,
    ensures
        (SinkModel { buffer: items, flushing: false }).handed_over(SinkOp::Drain) == items,
        (SinkModel { buffer: items, flushing: false }).apply(SinkOp::Drain) == (SinkModel {
            buffer: Seq::<T>::empty(),
            flushing: true,
        }),
{
}

} // verus!
