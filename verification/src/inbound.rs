//! The inbound bridge: what is done with each message that the broker
//! delivers, step by step.
//!
//! Handling one message alternates between a decision taken here and an
//! operation that only the caller can perform: decoding the payload, handing
//! the work item to the bounded channel, acknowledging the message. The caller
//! performs what a step requests and reports the result as the next event.

use crate::config::PubSubConfig;
use crate::error::PubSubError;
use crate::task::{read_task_id, resolve_id, resolved_id, supplied_id, IdCounter, PubSubTask, PubSubTaskId};
use crate::utils::{settle, settlement, PubSubContext};
use vstd::prelude::*;

verus! {

/// How the handling of a message ended, or is about to end.
#[derive(Debug, Clone, Copy, PartialEq, Eq, Structural)]
pub enum Disposition {
    /// The payload was over the size limit: acknowledged and dropped.
    Oversized,
    /// The payload could not be decoded: acknowledged and dropped.
    Poison,
    /// The work item was handed to the channel, then acknowledged.
    Delivered,
    /// The channel was closed: left unacknowledged for the broker to redeliver.
    Abandoned,
}

/// Where the handling of a message stands.
#[derive(Debug, Clone, Copy, PartialEq, Eq, Structural)]
pub enum Phase {
    /// The payload is with the codec.
    Decoding,
    /// The work item is offered to the channel.
    Sending,
    /// The acknowledgment is with the broker.
    Acknowledging(Disposition),
    /// Nothing is left to do.
    Finished(Disposition),
}

/// What the caller reports, without the data that came with it.
#[derive(Debug, Clone, Copy, PartialEq, Eq, Structural)]
pub enum Signal {
    /// The codec answered; `true` where it produced a payload.
    Decoded(bool),
    /// The channel answered; `true` where it took the item.
    Enqueued(bool),
    /// The broker answered the acknowledgment; `true` where it took it.
    Acknowledged(bool),
    /// Shutdown of the backend was requested.
    ShutdownRequested,
}

/// What a step asks the caller to do next.
#[derive(Debug, Clone, Copy, PartialEq, Eq, Structural)]
pub enum Request {
    /// Decode the payload and report `Decoded`.
    Decode,
    /// Offer the work item to the channel and report `Enqueued`.
    Enqueue,
    /// Acknowledge the message and report `Acknowledged`.
    Acknowledge,
    /// Return from the handler.
    Finish,
    /// Carry on with the operation that is under way.
    Wait,
}

/// The first decision on a message: a payload over the limit is acknowledged
/// at once, any other is decoded.
pub open spec fn entry(len: nat, limit: nat) -> (Phase, Request) {
    if len > limit {
        (Phase::Acknowledging(Disposition::Oversized), Request::Acknowledge)
    } else {
        (Phase::Decoding, Request::Decode)
    }
}

/// The decision on a signal: the phase that follows and what is requested.
/// A signal that does not answer the operation under way changes nothing.
pub open spec fn advance(phase: Phase, signal: Signal) -> (Phase, Request) {
    match (phase, signal) {
        (Phase::Decoding, Signal::Decoded(true)) => (Phase::Sending, Request::Enqueue),
        (Phase::Decoding, Signal::Decoded(false)) => (
            Phase::Acknowledging(Disposition::Poison),
            Request::Acknowledge,
        ),
        (Phase::Sending, Signal::Enqueued(true)) => (
            Phase::Acknowledging(Disposition::Delivered),
            Request::Acknowledge,
        ),
        (Phase::Sending, Signal::Enqueued(false)) => (
            Phase::Finished(Disposition::Abandoned),
            Request::Finish,
        ),
        (Phase::Acknowledging(disposition), Signal::Acknowledged(_)) => (
            Phase::Finished(disposition),
            Request::Finish,
        ),
        _ => (phase, Request::Wait),
    }
}

/// What the caller reports to a handler.
pub enum InboundEvent<M> {
    /// The codec's answer: the payload, or `None` where decoding failed.
    Decoded(Option<M>),
    /// Whether the channel took the item; `false` where it was closed.
    Enqueued(bool),
    /// The broker's answer to the acknowledgment, with its reason on failure.
    Acknowledged(Result<(), String>),
    /// Shutdown of the backend was requested.
    ShutdownRequested,
}

impl<M> InboundEvent<M> {
    /// The event without its data.
    pub open spec fn signal(self) -> Signal {
        match self {
            InboundEvent::Decoded(payload) => Signal::Decoded(payload is Some),
            InboundEvent::Enqueued(taken) => Signal::Enqueued(taken),
            InboundEvent::Acknowledged(outcome) => Signal::Acknowledged(outcome is Ok),
            InboundEvent::ShutdownRequested => Signal::ShutdownRequested,
        }
    }

    /// The failure to report when the handler finishes on this event: that of
    /// the acknowledgment, if it is one that failed.
    pub open spec fn ack_failure(self) -> Option<PubSubError> {
        match self {
            InboundEvent::Acknowledged(Err(reason)) => Some(PubSubError::AckFailed(reason)),
            _ => None,
        }
    }
}

/// An element of the sequence that the worker pulls: a work item, `Ok(None)`
/// where there is none right now, or the error that ended the stream.
pub type InboundElement<M, K> = Result<Option<PubSubTask<M, K>>, PubSubError>;

/// How a handler ended.
#[derive(Debug, Clone, PartialEq, Eq)]
pub struct Completion {
    /// What became of the message.
    pub disposition: Disposition,
    /// The failure of the acknowledgment, where one was sent and failed. It is
    /// for the log: the receive loop goes on.
    pub ack_failure: Option<PubSubError>,
}

/// What a step asks the caller to do next, with the data to do it with.
pub enum InboundAction<M, K> {
    /// Send this element into the channel and report `Enqueued`.
    Enqueue(InboundElement<M, K>),
    /// Acknowledge the message and report `Acknowledged`.
    Acknowledge,
    /// Return from the handler.
    Finish(Completion),
    /// Carry on with the operation that is under way.
    Wait,
}

impl<M, K> InboundAction<M, K> {
    /// The action without its data.
    pub open spec fn request(self) -> Request {
        match self {
            InboundAction::Enqueue(_) => Request::Enqueue,
            InboundAction::Acknowledge => Request::Acknowledge,
            InboundAction::Finish(_) => Request::Finish,
            InboundAction::Wait => Request::Wait,
        }
    }
}

enum Stage<K> {
    Decoding(PubSubTaskId, PubSubContext<K>),
    Sending,
    Acknowledging(Disposition),
    Finished(Disposition),
}

/// The handling of one message. While the payload is with the codec it keeps
/// the identifier and the context that the work item will get.
pub struct InboundHandler<K> {
    stage: Stage<K>,
}

impl<K> InboundHandler<K> {
    /// Where the handling stands.
    pub closed spec fn phase(&self) -> Phase {
        match self.stage {
            Stage::Decoding(_, _) => Phase::Decoding,
            Stage::Sending => Phase::Sending,
            Stage::Acknowledging(disposition) => Phase::Acknowledging(disposition),
            Stage::Finished(disposition) => Phase::Finished(disposition),
        }
    }

    /// The identifier kept for the work item, while the phase is `Decoding`.
    pub closed spec fn task_id(&self) -> PubSubTaskId {
        match self.stage {
            Stage::Decoding(task_id, _) => task_id,
            _ => arbitrary(),
        }
    }

    /// The context kept for the work item, while the phase is `Decoding`.
    pub closed spec fn ctx(&self) -> PubSubContext<K> {
        match self.stage {
            Stage::Decoding(_, ctx) => ctx,
            _ => arbitrary(),
        }
    }

    /// Takes up a message of `len` payload bytes whose producer supplied the
    /// identifier `supplied`, if any.
    ///
    /// A payload over `config.max_message_size` is to be acknowledged at once;
    /// it gets no identifier and the counter stays as it is. Any other is to be
    /// decoded, and its identifier is the supplied one or the next of `ids`.
    pub fn begin(
        len: usize,
        supplied: Option<u128>,
        ctx: PubSubContext<K>,
        config: &PubSubConfig,
        ids: &mut IdCounter,
    ) -> (start: (Self, Request))
        requires
            old(ids).issued() < u64::MAX,
        ensures
            (start.0.phase(), start.1) == entry(len as nat, config.max_message_size as nat),
            start.0.phase() == Phase::Decoding ==> start.0.task_id() == resolved_id(
                supplied,
                old(ids).issued(),
            ) && start.0.ctx() == ctx,
            final(ids).issued() == old(ids).issued() + if config.admits(len as nat)
                && supplied is None {
                1nat
            } else {
                0nat
            },
    {
        if !config.within_limit(len) {
            let handler = InboundHandler { stage: Stage::Acknowledging(Disposition::Oversized) };
            (handler, Request::Acknowledge)
        } else {
            let task_id = resolve_id(supplied, ids);
            (InboundHandler { stage: Stage::Decoding(task_id, ctx) }, Request::Decode)
        }
    }

    /// Takes up a message as the broker delivered it: `payload` is its data
    /// and `attribute` the value of its `task_id` attribute, if it has one.
    pub fn receive(
        payload: &[u8],
        attribute: Option<&str>,
        ctx: PubSubContext<K>,
        config: &PubSubConfig,
        ids: &mut IdCounter,
    ) -> (start: (Self, Request))
        requires
            old(ids).issued() < u64::MAX,
        ensures
            (start.0.phase(), start.1) == entry(payload@.len(), config.max_message_size as nat),
            start.0.phase() == Phase::Decoding ==> start.0.task_id() == resolved_id(
                attribute_id(attribute),
                old(ids).issued(),
            ) && start.0.ctx() == ctx,
            final(ids).issued() == old(ids).issued() + if config.admits(payload@.len())
                && attribute_id(attribute) is None {
                1nat
            } else {
                0nat
            },
    {
        if !config.within_limit(payload.len()) {
            let handler = InboundHandler { stage: Stage::Acknowledging(Disposition::Oversized) };
            (handler, Request::Acknowledge)
        } else {
            let supplied = read_task_id(attribute);
            Self::begin(payload.len(), supplied, ctx, config, ids)
        }
    }

    /// Takes the next step on `event`.
    ///
    /// The phase and the kind of action are those of `advance`. The element to
    /// enqueue is the work item made of the decoded payload and of the
    /// identifier and context kept since the message was taken up. A handler
    /// that finishes reports what became of the message and, where it ends on
    /// an acknowledgment that failed, that failure.
    pub fn step<M>(self, event: InboundEvent<M>) -> (next: (Self, InboundAction<M, K>))
        ensures
            (next.0.phase(), next.1.request()) == advance(self.phase(), event.signal()),
            match next.1 {
                InboundAction::Enqueue(element) => event is Decoded && element == Ok::<
                    Option<PubSubTask<M, K>>,
                    PubSubError,
                >(
                    Some(
                        PubSubTask {
                            args: event->Decoded_0->Some_0,
                            task_id: Some(self.task_id()),
                            ctx: self.ctx(),
                        },
                    ),
                ),
                InboundAction::Finish(completion) => next.0.phase() == Phase::Finished(
                    completion.disposition,
                ) && completion.ack_failure == event.ack_failure(),
                _ => true,
            },
            next.0.phase() == Phase::Decoding ==> next.0 == self,
    {
        match (self.stage, event) {
            (Stage::Decoding(task_id, ctx), InboundEvent::Decoded(Some(args))) => {
                let element = Ok(Some(PubSubTask { args, task_id: Some(task_id), ctx }));
                (InboundHandler { stage: Stage::Sending }, InboundAction::Enqueue(element))
            },
            (Stage::Decoding(_, _), InboundEvent::Decoded(None)) => (
                InboundHandler { stage: Stage::Acknowledging(Disposition::Poison) },
                InboundAction::Acknowledge,
            ),
            (Stage::Sending, InboundEvent::Enqueued(true)) => (
                InboundHandler { stage: Stage::Acknowledging(Disposition::Delivered) },
                InboundAction::Acknowledge,
            ),
            (Stage::Sending, InboundEvent::Enqueued(false)) => (
                InboundHandler { stage: Stage::Finished(Disposition::Abandoned) },
                InboundAction::Finish(
                    Completion { disposition: Disposition::Abandoned, ack_failure: None },
                ),
            ),
            (Stage::Acknowledging(disposition), InboundEvent::Acknowledged(outcome)) => {
                let ack_failure = match settle(outcome) {
                    Ok(()) => None,
                    Err(failure) => Some(failure),
                };
                (
                    InboundHandler { stage: Stage::Finished(disposition) },
                    InboundAction::Finish(Completion { disposition, ack_failure }),
                )
            },
            (stage, _) => (InboundHandler { stage }, InboundAction::Wait),
        }
    }
}

/// The identifier that the `task_id` attribute of a message supplies.
pub open spec fn attribute_id(attribute: Option<&str>) -> Option<u128> {
    supplied_id(
        match attribute {
            Some(text) => Some(text@),
            None => None,
        },
    )
}

/// The last element of the inbound sequence, if the receive loop calls for
/// one: a loop that ended with an error puts that error into the channel
/// before the channel closes, one that ended normally puts nothing.
pub open spec fn closing_element(outcome: Result<(), String>) -> Option<PubSubError> {
    match outcome {
        Ok(()) => None,
        Err(reason) => Some(PubSubError::Subscription(reason)),
    }
}

/// Decides what the receive loop leaves behind when it returns `outcome`.
pub fn conclude(outcome: Result<(), String>) -> (last: Option<PubSubError>)
    ensures
        last == closing_element(outcome),
{
    match outcome {
        Ok(()) => None,
        Err(reason) => Some(PubSubError::Subscription(reason)),
    }
}

/// The inbound bridge of one subscription: the configuration it was started
/// with and the counter from which it mints identifiers.
pub struct InboundBridge {
    config: PubSubConfig,
    ids: IdCounter,
}

impl InboundBridge {
    /// The configuration that the bridge was started with.
    pub closed spec fn config(&self) -> PubSubConfig {
        self.config
    }

    /// How many identifiers the bridge has minted.
    pub closed spec fn minted(&self) -> nat {
        self.ids.issued()
    }

    /// A bridge that has handled nothing yet.
    pub fn new(config: PubSubConfig) -> (bridge: Self)
        ensures
            bridge.config() == config,
            bridge.minted() == 0,
    {
        InboundBridge { config, ids: IdCounter::new() }
    }

    /// The capacity that the channel to the worker is made with.
    pub fn capacity(&self) -> (slots: usize)
        ensures
            slots == self.config().buffer_size,
    {
        self.config.buffer_size
    }

    /// Whether the bridge can still mint an identifier.
    pub fn can_mint(&self) -> (more: bool)
        ensures
            more == (self.minted() < u64::MAX),
    {
        self.ids.has_next()
    }

    /// Takes up a message as the broker delivered it and hands out the handler
    /// that sees it through: see `InboundHandler::receive`.
    pub fn receive<K>(&mut self, payload: &[u8], attribute: Option<&str>, ctx: PubSubContext<K>) -> (start: (
        InboundHandler<K>,
        Request,
    ))
        requires
            old(self).minted() < u64::MAX,
        ensures
            final(self).config() == old(self).config(),
            (start.0.phase(), start.1) == entry(
                payload@.len(),
                old(self).config().max_message_size as nat,
            ),
            start.0.phase() == Phase::Decoding ==> start.0.task_id() == resolved_id(
                attribute_id(attribute),
                old(self).minted(),
            ) && start.0.ctx() == ctx,
            final(self).minted() == old(self).minted() + if old(self).config().admits(
                payload@.len(),
            ) && attribute_id(attribute) is None {
                1nat
            } else {
                0nat
            },
    {
        InboundHandler::receive(payload, attribute, ctx, &self.config, &mut self.ids)
    }
}

} // verus!
