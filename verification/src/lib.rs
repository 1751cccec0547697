//! Bridge between a push-delivery publish/subscribe broker and a pull-based
//! job-processing worker.
//!
//! The crate holds the decisions of that bridge as verified code. Everything
//! that waits on the broker, on a channel or on a codec is left to the caller,
//! which performs the requested operation and reports back what happened.

pub mod backend;
pub mod config;
pub mod error;
pub mod inbound;
pub mod inbound_laws;
pub mod layer;
pub mod sink;
pub mod sink_laws;
pub mod task;
pub mod utils;

pub use crate::backend::PubSubBackend;
pub use crate::config::PubSubConfig;
pub use crate::error::PubSubError;
