//! The acknowledgment context that travels with every work item.

use crate::error::PubSubError;
use vstd::prelude::*;

verus! {

/// The two operations by which a delivery is settled with the broker.
///
/// An implementation says with `ack_gives` and `nack_gives` which outcomes its
/// operations can have, and with `callable` when they may be invoked. Neither
/// operation changes the value it is called on.
pub trait Acknowledger {
    /// The operations may be invoked.
    spec fn callable(&self) -> bool;

    /// `outcome` is a possible result of `acknowledge`.
    spec fn ack_gives(&self, outcome: Result<(), String>) -> bool;

    /// `outcome` is a possible result of `negative_acknowledge`.
    spec fn nack_gives(&self, outcome: Result<(), String>) -> bool;

    /// Tells the broker that the delivery was taken.
    fn acknowledge(&self) -> (outcome: Result<(), String>)
        requires
            self.callable(),
        ensures
            self.ack_gives(outcome),
    ;

    /// Tells the broker to deliver the message again.
    fn negative_acknowledge(&self) -> (outcome: Result<(), String>)
        requires
            self.callable(),
        ensures
            self.nack_gives(outcome),
    ;
}

/// A handle with nothing behind it: both operations succeed and do nothing.
#[derive(Debug, Clone, Copy)]
pub struct Settled;

impl Acknowledger for Settled {
    open spec fn callable(&self) -> bool {
        true
    }

    open spec fn ack_gives(&self, outcome: Result<(), String>) -> bool {
        outcome is Ok
    }

    open spec fn nack_gives(&self, outcome: Result<(), String>) -> bool {
        outcome is Ok
    }

    fn acknowledge(&self) -> (outcome: Result<(), String>) {
        Ok(())
    }

    fn negative_acknowledge(&self) -> (outcome: Result<(), String>) {
        Ok(())
    }
}

/// A handle made of two functions that close over the broker message.
#[derive(Clone)]
pub struct Callbacks<A, N> {
    /// The function behind `acknowledge`.
    pub ack_fn: A,
    /// The function behind `negative_acknowledge`.
    pub nack_fn: N,
}

impl<A: Fn() -> Result<(), String>, N: Fn() -> Result<(), String>> Acknowledger for Callbacks<
    A,
    N,
> {
    open spec fn callable(&self) -> bool {
        call_requires(self.ack_fn, ()) && call_requires(self.nack_fn, ())
    }

    open spec fn ack_gives(&self, outcome: Result<(), String>) -> bool {
        call_ensures(self.ack_fn, (), outcome)
    }

    open spec fn nack_gives(&self, outcome: Result<(), String>) -> bool {
        call_ensures(self.nack_fn, (), outcome)
    }

    fn acknowledge(&self) -> (outcome: Result<(), String>) {
        (self.ack_fn)()
    }

    fn negative_acknowledge(&self) -> (outcome: Result<(), String>) {
        (self.nack_fn)()
    }
}

/// What `ack` and `nack` report for an outcome of the broker operation: success
/// stays success, and a failure becomes `AckFailed` with the broker's reason.
pub open spec fn settlement(outcome: Result<(), String>) -> Result<(), PubSubError> {
    match outcome {
        Ok(()) => Ok(()),
        Err(reason) => Err(PubSubError::AckFailed(reason)),
    }
}

/// Maps the outcome of a broker acknowledgment, positive or negative, into the
/// backend's errors.
pub fn settle(outcome: Result<(), String>) -> (result: Result<(), PubSubError>)
    ensures
        result == settlement(outcome),
{
    match outcome {
        Ok(()) => Ok(()),
        Err(reason) => Err(PubSubError::AckFailed(reason)),
    }
}

/// Context of one broker message: its acknowledgment id and the handle that
/// settles it.
#[derive(Clone)]
pub struct PubSubContext<K> {
    /// The acknowledgment id that the broker gave the delivery.
    pub ack_id: String,
    /// The handle that settles the delivery.
    pub handle: K,
}

impl<A, N> PubSubContext<Callbacks<A, N>> {
    /// A context whose operations are the two given functions.
    pub fn new(ack_id: String, ack_fn: A, nack_fn: N) -> (ctx: Self)
        ensures
            ctx.ack_id == ack_id,
            ctx.handle.ack_fn == ack_fn,
            ctx.handle.nack_fn == nack_fn,
    {
        PubSubContext { ack_id, handle: Callbacks { ack_fn, nack_fn } }
    }
}

impl Default for PubSubContext<Settled> {
    /// The context of no message: an empty id and operations that succeed.
    fn default() -> (ctx: Self)
        ensures
            ctx.ack_id@ == Seq::<char>::empty(),
    {
        PubSubContext { ack_id: String::new(), handle: Settled }
    }
}

impl<K> PubSubContext<K> {
    /// A context around a handle of the caller's own.
    pub fn with_handle(ack_id: String, handle: K) -> (ctx: Self)
        ensures
            ctx.ack_id == ack_id,
            ctx.handle == handle,
    {
        PubSubContext { ack_id, handle }
    }
}

impl<K: Acknowledger> PubSubContext<K> {
    /// Acknowledges the message. Calls the handle once and keeps no state.
    pub fn ack(&self) -> (result: Result<(), PubSubError>)
        requires
            self.handle.callable(),
        ensures
            match result {
                Ok(()) => self.handle.ack_gives(Ok(())),
                Err(PubSubError::AckFailed(reason)) => self.handle.ack_gives(Err(reason)),
                Err(_) => false,
            },
    {
        let outcome = self.handle.acknowledge();
        // A success holds the one value of the unit type.
        assert(outcome is Ok ==> outcome->Ok_0 == () && outcome =~= Ok::<(), String>(()));
        settle(outcome)
    }

    /// Negatively acknowledges the message, so that the broker delivers it
    /// again. Calls the handle once and keeps no state.
    pub fn nack(&self) -> (result: Result<(), PubSubError>)
        requires
            self.handle.callable(),
        ensures
            match result {
                Ok(()) => self.handle.nack_gives(Ok(())),
                Err(PubSubError::AckFailed(reason)) => self.handle.nack_gives(Err(reason)),
                Err(_) => false,
            },
    {
        let outcome = self.handle.negative_acknowledge();
        // A success holds the one value of the unit type.
        assert(outcome is Ok ==> outcome->Ok_0 == () && outcome =~= Ok::<(), String>(()));
        settle(outcome)
    }
}

/// The text that `<str as core::fmt::Debug>::fmt` writes for `text`: the text
/// in double quotes, with the characters that need it escaped.
pub uninterp spec fn debug_text(text: Seq<char>) -> Seq<char>;

/// Formats `text` with `{:?}`, that is with `<str as core::fmt::Debug>::fmt`.
/// What comes out depends on the characters of `text` alone.
#[verifier::external_body]
fn quote(text: &str) -> (quoted: String)
    ensures
        quoted@ == debug_text(text@),
{
    format!("{:?}", text)
}

/// How a context is shown for debugging, given its acknowledgment id in
/// quotes: the name of the type and the id as its one field. The handle is
/// not shown.
pub open spec fn debug_frame(quoted_id: Seq<char>) -> Seq<char> {
    "PubSubContext { ack_id: "@ + quoted_id + " }"@
}

/// Puts the quoted acknowledgment id into the frame of `debug_frame`.
pub fn frame_debug(quoted_id: &str) -> (text: String)
    ensures
        text@ == debug_frame(quoted_id@),
{
    let mut text = "PubSubContext { ack_id: ".to_owned();
    text.push_str(quoted_id);
    text.push_str(" }");
    text
}

impl<K> PubSubContext<K> {
    /// The context as text for debugging.
    pub fn debug_string(&self) -> (text: String)
        ensures
            text@ == debug_frame(debug_text(self.ack_id@)),
    {
        let quoted = quote(self.ack_id.as_str());
        frame_debug(quoted.as_str())
    }
}

} // verus!
