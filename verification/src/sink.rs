//! The outbound sink: outgoing work items are collected and handed to the
//! broker in batches, one flush at a time.
//!
//! Publishing is the caller's part. `drain` says when a flush is to be
//! started and with which items; the caller publishes them all at once, polls
//! that one operation, and reports what the poll gave with `flush_polled`.

use crate::error::PubSubError;
use crate::task::{PubSubCompact, PubSubTask};
use vstd::prelude::*;

verus! {

/// A work item on its way out: its payload is already encoded.
pub type OutboundTask<K> = PubSubTask<PubSubCompact, K>;

/// What is published for one work item.
#[derive(Debug, Clone, PartialEq, Eq)]
pub struct OutboundMessage {
    /// The data of the message: the encoded payload of the item.
    pub data: Vec<u8>,
}

/// Makes the message that is published for `task`: its data is the payload,
/// and it carries no attributes.
pub fn into_message<K>(task: OutboundTask<K>) -> (message: OutboundMessage)
    ensures
        message.data == task.args,
{
    OutboundMessage { data: task.args }
}

/// What polling the flush in progress gave.
#[derive(Debug, Clone, PartialEq, Eq)]
pub enum FlushReport {
    /// Some publish has not come back yet.
    Running,
    /// Every publish of the batch succeeded.
    Succeeded,
    /// A publish failed, with the broker's reason.
    Failed(String),
}

/// What `drain` decided.
pub enum DrainStep<T> {
    /// No flush is in progress and nothing is buffered: the sink is drained.
    Ready,
    /// A flush was started. The caller publishes every item of the batch
    /// concurrently, as one operation, and has work pending.
    Flush(Vec<T>),
    /// A flush is in progress: poll it and report with `flush_polled`.
    Poll,
}

/// Where draining stands after a poll of the flush.
#[derive(Debug, Clone, PartialEq, Eq)]
pub enum DrainStatus {
    /// The flush is still running.
    Pending,
    /// No flush is in progress.
    Ready,
    /// The flush failed; its batch is gone and is not sent again.
    Failed(PubSubError),
}

/// The sink as a value: what is buffered, oldest first, and whether a flush is
/// in progress.
pub struct SinkModel<T> {
    /// The items accepted and not yet handed to a flush.
    pub buffer: Seq<T>,
    /// Whether a flush is in progress.
    pub flushing: bool,
}

impl<T> SinkModel<T> {
    /// The sink with nothing in it.
    pub open spec fn empty() -> Self {
        SinkModel { buffer: Seq::empty(), flushing: false }
    }

    /// After `accept`: the item stands last in the buffer.
    pub open spec fn accept(self, item: T) -> Self {
        SinkModel { buffer: self.buffer.push(item), flushing: self.flushing }
    }

    /// The batch that `drain` hands to a new flush: the whole buffer where no
    /// flush is in progress, nothing where one is.
    pub open spec fn batch(self) -> Seq<T> {
        if self.flushing {
            Seq::empty()
        } else {
            self.buffer
        }
    }

    /// After `drain`: where no flush was in progress and something was
    /// buffered, a flush is and the buffer is empty. Else nothing changed.
    pub open spec fn drain(self) -> Self {
        if !self.flushing && self.buffer.len() > 0 {
            SinkModel { buffer: Seq::empty(), flushing: true }
        } else {
            self
        }
    }

    /// After `flush_polled`: a flush that has come to its end, well or badly,
    /// is no longer in progress. The buffer is not touched.
    pub open spec fn polled(self, report: FlushReport) -> Self {
        SinkModel { buffer: self.buffer, flushing: self.flushing && report is Running }
    }

    /// What `flush_polled` reports.
    pub open spec fn status(self, report: FlushReport) -> DrainStatus {
        if !self.flushing {
            DrainStatus::Ready
        } else {
            match report {
                FlushReport::Running => DrainStatus::Pending,
                FlushReport::Succeeded => DrainStatus::Ready,
                FlushReport::Failed(reason) => DrainStatus::Failed(PubSubError::Client(reason)),
            }
        }
    }
}

/// Sink of outgoing work items.
pub struct PubSubSink<K> {
    buffer: Vec<OutboundTask<K>>,
    flushing: bool,
}

impl<K> View for PubSubSink<K> {
    type V = SinkModel<OutboundTask<K>>;

    closed spec fn view(&self) -> SinkModel<OutboundTask<K>> {
        SinkModel { buffer: self.buffer@, flushing: self.flushing }
    }
}

impl<K: Clone> Clone for PubSubSink<K> {
    /// A copy holds copies of the buffered items and has no flush in
    /// progress: the flush stays with the sink that started it.
    fn clone(&self) -> (copy: Self)
        ensures
            !copy@.flushing,
            copy@.buffer.len() == self@.buffer.len(),
            forall|i: int|
                0 <= i < self@.buffer.len() ==> cloned(
                    #[trigger] self@.buffer[i],
                    copy@.buffer[i],
                ),
    {
        PubSubSink { buffer: self.buffer.clone(), flushing: false }
    }
}

impl<K> PubSubSink<K> {
    /// A sink with nothing buffered and no flush in progress.
    pub fn new() -> (sink: Self)
        ensures
            sink@ == SinkModel::<OutboundTask<K>>::empty(),
    {
        PubSubSink { buffer: Vec::new(), flushing: false }
    }

    /// Whether a flush is in progress.
    pub fn is_flushing(&self) -> (flushing: bool)
        ensures
            flushing == self@.flushing,
    {
        self.flushing
    }

    /// How many items are buffered.
    pub fn buffered(&self) -> (count: usize)
        ensures
            count == self@.buffer.len(),
    {
        self.buffer.len()
    }

    /// Takes an item. This always succeeds and never waits: the item is put
    /// last in the buffer, whether or not a flush is in progress.
    pub fn accept(&mut self, item: OutboundTask<K>)
        ensures
            final(self)@ == old(self)@.accept(item),
    {
        self.buffer.push(item);
    }

    /// Decides how draining goes on.
    ///
    /// With no flush in progress and nothing buffered the sink is drained.
    /// With no flush in progress and items buffered, a flush starts: it gets
    /// the whole buffer, in the order of acceptance, and the buffer is left
    /// empty for what arrives meanwhile. With a flush in progress nothing
    /// changes and the flush is to be polled.
    pub fn drain(&mut self) -> (step: DrainStep<OutboundTask<K>>)
        ensures
            final(self)@ == old(self)@.drain(),
            match step {
                DrainStep::Ready => !old(self)@.flushing && old(self)@.buffer.len() == 0,
                DrainStep::Flush(batch) => !old(self)@.flushing && old(self)@.buffer.len() > 0
                    && batch@ == old(self)@.batch(),
                DrainStep::Poll => old(self)@.flushing,
            },
    {
        if self.flushing {
            DrainStep::Poll
        } else if self.buffer.len() == 0 {
            DrainStep::Ready
        } else {
            let mut batch: Vec<OutboundTask<K>> = Vec::new();
            core::mem::swap(&mut self.buffer, &mut batch);
            self.flushing = true;
            DrainStep::Flush(batch)
        }
    }

    /// Takes what polling the flush in progress gave.
    ///
    /// A flush that succeeded or failed is no longer in progress afterwards,
    /// and a failure is handed on with the broker's reason; the items of a
    /// failed batch are not put back. A flush that is still running stays.
    /// The buffer is not touched, so what was accepted meanwhile waits for the
    /// next `drain`. Without a flush in progress there is nothing to report
    /// on, and the sink says that none is.
    pub fn flush_polled(&mut self, report: FlushReport) -> (status: DrainStatus)
        ensures
            final(self)@ == old(self)@.polled(report),
            status == old(self)@.status(report),
    {
        if !self.flushing {
            return DrainStatus::Ready;
        }
        match report {
            FlushReport::Running => DrainStatus::Pending,
            FlushReport::Succeeded => {
                self.flushing = false;
                DrainStatus::Ready
            },
            FlushReport::Failed(reason) => {
                self.flushing = false;
                DrainStatus::Failed(PubSubError::Client(reason))
            },
        }
    }

    /// Closing the sink is draining it: there is no teardown of its own.
    pub fn close(&mut self) -> (step: DrainStep<OutboundTask<K>>)
        ensures
            final(self)@ == old(self)@.drain(),
            match step {
                DrainStep::Ready => !old(self)@.flushing && old(self)@.buffer.len() == 0,
                DrainStep::Flush(batch) => !old(self)@.flushing && old(self)@.buffer.len() > 0
                    && batch@ == old(self)@.batch(),
                DrainStep::Poll => old(self)@.flushing,
            },
    {
        self.drain()
    }
}

} // verus!
