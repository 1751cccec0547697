//! Tunables of the backend, fixed once at construction.

use vstd::prelude::*;

verus! {

/// Capacity of the channel between the receive loop and the worker when
/// nothing else is configured.
pub const DEFAULT_BUFFER_SIZE: usize = 100;

/// Largest payload, in bytes, that is handed to the codec when nothing else is
/// configured: 10 MiB.
pub const DEFAULT_MAX_MESSAGE_SIZE: usize = 10 * 1024 * 1024;

/// Configuration of the backend.
#[derive(Debug, Clone)]
pub struct PubSubConfig {
    /// Capacity of the bounded channel that carries work items to the worker.
    pub buffer_size: usize,
    /// Largest payload in bytes that is decoded; longer ones are dropped.
    pub max_message_size: usize,
    /// Advisory cap on outstanding messages, enforced by the broker client.
    pub max_outstanding_messages: Option<i64>,
    /// Advisory cap on outstanding bytes, enforced by the broker client.
    pub max_outstanding_bytes: Option<i64>,
}

impl Default for PubSubConfig {
    fn default() -> (config: Self)
        ensures
            config.buffer_size == DEFAULT_BUFFER_SIZE,
            config.max_message_size == DEFAULT_MAX_MESSAGE_SIZE,
            config.max_outstanding_messages is None,
            config.max_outstanding_bytes is None,
    {
        PubSubConfig {
            buffer_size: DEFAULT_BUFFER_SIZE,
            max_message_size: DEFAULT_MAX_MESSAGE_SIZE,
            max_outstanding_messages: None,
            max_outstanding_bytes: None,
        }
    }
}

impl PubSubConfig {
    /// A payload of `len` bytes is within the configured limit.
    pub open spec fn admits(&self, len: nat) -> bool {
        len <= self.max_message_size
    }

    /// Whether a payload of `len` bytes may be decoded.
    pub fn within_limit(&self, len: usize) -> (ok: bool)
        ensures
            ok == self.admits(len as nat),
    {
        len <= self.max_message_size
    }
}

} // verus!
