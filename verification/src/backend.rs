//! The backend as the worker sees it: the configuration, the outbound sink
//! and the shutdown signal, put together once the broker client is connected.
//!
//! The connection itself belongs to the caller, who owns the broker client
//! and hands in how connecting went.

use crate::config::{PubSubConfig, DEFAULT_BUFFER_SIZE, DEFAULT_MAX_MESSAGE_SIZE};
use crate::error::PubSubError;
use crate::inbound::InboundBridge;
use crate::layer::PubSubLayer;
use crate::sink::{OutboundTask, PubSubSink, SinkModel};
use tokio_util::sync::CancellationToken;
use vstd::prelude::*;

verus! {

/// The cancellation token of `tokio_util`. Its state is shared between its
/// clones and is not visible here.
#[verifier::external_type_specification]
#[verifier::external_body]
pub struct ExCancellationToken(CancellationToken);

/// `CancellationToken::new` makes a token of its own. Nothing is claimed of it.
pub assume_specification[ CancellationToken::new ]() -> (token: CancellationToken)
;

/// `CancellationToken::cancel` cancels the token and its clones; it returns
/// nothing and does not fail. Nothing is claimed of its effect.
pub assume_specification[ CancellationToken::cancel ](token: &CancellationToken)
;

/// `<CancellationToken as Clone>::clone` makes another handle to the same
/// token. Nothing is claimed of it.
pub assume_specification[ <CancellationToken as Clone>::clone ](token: &CancellationToken) -> (copy:
    CancellationToken)
;

/// Backend for a job-processing worker on a publish/subscribe broker.
pub struct PubSubBackend<K> {
    config: PubSubConfig,
    sink: PubSubSink<K>,
    cancel: CancellationToken,
}

impl<K> PubSubBackend<K> {
    /// The configuration of the backend.
    pub closed spec fn config(&self) -> PubSubConfig {
        self.config
    }

    /// The outbound sink of the backend.
    pub closed spec fn sink(&self) -> SinkModel<OutboundTask<K>> {
        self.sink@
    }

    /// Puts a backend with the default configuration together. `connection`
    /// says how connecting the broker client went.
    pub fn new_from_config(connection: Result<(), String>) -> (backend: Result<Self, PubSubError>)
        ensures
            match connection {
                Ok(()) => backend matches Ok(made) && made.config().buffer_size
                    == DEFAULT_BUFFER_SIZE && made.config().max_message_size
                    == DEFAULT_MAX_MESSAGE_SIZE && made.config().max_outstanding_messages is None
                    && made.config().max_outstanding_bytes is None && made.sink() == SinkModel::<
                    OutboundTask<K>,
                >::empty(),
                Err(reason) => backend matches Err(error) && error == PubSubError::Client(reason),
            },
    {
        Self::new_with_config(connection, PubSubConfig::default())
    }

    /// Puts a backend with the given configuration together. `connection`
    /// says how connecting the broker client went: where it failed, so does
    /// this, with the client error that carries the reason. Else the backend
    /// has the given configuration and a sink with nothing in it.
    pub fn new_with_config(connection: Result<(), String>, pubsub_config: PubSubConfig) -> (backend:
        Result<Self, PubSubError>)
        ensures
            match connection {
                Ok(()) => backend matches Ok(made) && made.config() == pubsub_config && made.sink()
                    == SinkModel::<OutboundTask<K>>::empty(),
                Err(reason) => backend matches Err(error) && error == PubSubError::Client(reason),
            },
    {
        match connection {
            Ok(()) => Ok(
                PubSubBackend {
                    config: pubsub_config,
                    sink: PubSubSink::new(),
                    cancel: CancellationToken::new(),
                },
            ),
            Err(reason) => Err(PubSubError::Client(reason)),
        }
    }

    /// Requests shutdown: cancels the token that the receive loop watches.
    /// The configuration and the sink are not touched, and a flush that is in
    /// progress goes on.
    pub fn shutdown(&self) {
        self.cancel.cancel();
    }

    /// The configuration of the backend.
    pub fn settings(&self) -> (config: &PubSubConfig)
        ensures
            *config == self.config(),
    {
        &self.config
    }

    /// The outbound sink, to accept and drain items.
    pub fn sink_mut(&mut self) -> (sink: &mut PubSubSink<K>)
        ensures
            sink@ == old(self).sink(),
            final(self).sink() == final(sink)@,
            final(self).config() == old(self).config(),
    {
        &mut self.sink
    }

    /// The layer that the backend contributes to the worker's services.
    pub fn middleware(&self) -> (layer: PubSubLayer) {
        PubSubLayer
    }

    /// Starts polling: hands out the inbound bridge for the receive loop,
    /// which works with the backend's configuration and has minted nothing,
    /// and the token by which the loop learns of a shutdown.
    pub fn poll(self) -> (started: (InboundBridge, CancellationToken))
        ensures
            started.0.config() == self.config(),
            started.0.minted() == 0,
    {
        (InboundBridge::new(self.config), self.cancel)
    }
}

impl<K: Clone> Clone for PubSubBackend<K> {
    /// A copy shares the shutdown signal and has the same configuration. It
    /// holds copies of the buffered items and has no flush in progress.
    fn clone(&self) -> (copy: Self)
        ensures
            copy.config() == self.config(),
            !copy.sink().flushing,
            copy.sink().buffer.len() == self.sink().buffer.len(),
            forall|i: int|
                0 <= i < self.sink().buffer.len() ==> cloned(
                    #[trigger] self.sink().buffer[i],
                    copy.sink().buffer[i],
                ),
    {
        PubSubBackend {
            config: PubSubConfig {
                buffer_size: self.config.buffer_size,
                max_message_size: self.config.max_message_size,
                max_outstanding_messages: self.config.max_outstanding_messages,
                max_outstanding_bytes: self.config.max_outstanding_bytes,
            },
            sink: self.sink.clone(),
            cancel: self.cancel.clone(),
        }
    }
}

} // verus!
