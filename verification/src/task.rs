//! Work items and their identifiers.

use crate::utils::PubSubContext;
use std::str::FromStr;
use vstd::prelude::*;

verus! {

/// Name of the message attribute by which a producer hands on a task id.
pub const PUBSUB_ATTRIBUTE_TASK_ID: &'static str = "task_id";

/// The form in which task payloads travel through the broker.
pub type PubSubCompact = Vec<u8>;

/// Identifier of a work item.
#[derive(Debug, Clone, Copy, PartialEq, Eq, Hash, Structural)]
pub enum PubSubTaskId {
    /// The 128-bit value of the UUID that the producer put on the message.
    Supplied(u128),
    /// A number that this process drew from an `IdCounter`.
    Minted(u64),
}

/// A work item: the payload of one message, its identifier, and the context
/// through which the message is settled with the broker.
///
/// Every item that comes in from the broker has an identifier. An item on its
/// way out has one only if its maker gave it one.
#[derive(Clone)]
pub struct PubSubTask<M, K> {
    /// The payload.
    pub args: M,
    /// The identifier of the item.
    pub task_id: Option<PubSubTaskId>,
    /// The acknowledgment context of the message that the item came from.
    pub ctx: PubSubContext<K>,
}

/// The value of the UUID that `uuid::Uuid::from_str` reads from `text`, as
/// `Uuid::as_u128` gives it, or `None` where it reads none.
pub uninterp spec fn uuid_value(text: Seq<char>) -> Option<u128>;

/// Parses `text` with `uuid::Uuid::from_str` and hands back the 128 bits of
/// the UUID. The result depends on the characters of `text` alone.
#[verifier::external_body]
fn parse_uuid(text: &str) -> (value: Option<u128>)
    ensures
        value == uuid_value(text@),
{
    match uuid::Uuid::from_str(text) {
        Ok(id) => Some(id.as_u128()),
        Err(_) => None,
    }
}

/// The id that a producer supplied: the UUID in the `task_id` attribute.
/// An attribute that is absent, or that holds no UUID, supplies none.
pub open spec fn supplied_id(attribute: Option<Seq<char>>) -> Option<u128> {
    match attribute {
        Some(text) => uuid_value(text),
        None => None,
    }
}

/// Reads the id that the producer supplied from the value of the `task_id`
/// attribute of a message.
pub fn read_task_id(attribute: Option<&str>) -> (value: Option<u128>)
    ensures
        value == supplied_id(
            match attribute {
                Some(text) => Some(text@),
                None => None,
            },
        ),
{
    match attribute {
        Some(text) => parse_uuid(text),
        None => None,
    }
}

/// Source of the identifiers that this process mints. It counts upwards, so no
/// two identifiers drawn from one counter are equal.
#[derive(Debug)]
pub struct IdCounter {
    next: u64,
}

impl IdCounter {
    /// How many identifiers were drawn so far; also the next one.
    pub closed spec fn issued(&self) -> nat {
        self.next as nat
    }

    /// A counter from which nothing was drawn yet.
    pub fn new() -> (counter: Self)
        ensures
            counter.issued() == 0,
    {
        IdCounter { next: 0 }
    }

    /// Whether another identifier can be drawn.
    pub fn has_next(&self) -> (more: bool)
        ensures
            more == (self.issued() < u64::MAX),
    {
        self.next < u64::MAX
    }

    /// Draws the next identifier.
    pub fn mint(&mut self) -> (id: u64)
        requires
            old(self).issued() < u64::MAX,
        ensures
            id == old(self).issued(),
            final(self).issued() == old(self).issued() + 1,
    {
        let id: u64 = self.next;
        self.next = id + 1;
        id
    }
}

/// The identifier of a work item: the supplied one where there is one, else
/// the next of the counter.
pub open spec fn resolved_id(supplied: Option<u128>, issued: nat) -> PubSubTaskId {
    match supplied {
        Some(value) => PubSubTaskId::Supplied(value),
        None => PubSubTaskId::Minted(issued as u64),
    }
}

/// Picks the identifier of a work item. The counter moves only when it is
/// drawn from.
pub fn resolve_id(supplied: Option<u128>, ids: &mut IdCounter) -> (id: PubSubTaskId)
    requires
        old(ids).issued() < u64::MAX,
    ensures
        id == resolved_id(supplied, old(ids).issued()),
        final(ids).issued() == old(ids).issued() + if supplied is Some { 0nat } else { 1nat },
{
    match supplied {
        Some(value) => PubSubTaskId::Supplied(value),
        None => PubSubTaskId::Minted(ids.mint()),
    }
}

/// Law of minted identifiers: identifiers drawn from one counter at different
/// counts differ, and no minted identifier equals a supplied one.
pub proof fn minted_ids_are_distinct(first: nat, second: nat, supplied: u128)
    requires
        first != second,
        first <= u64::MAX,
        second <= u64::MAX,
    ensures
        resolved_id(None, first) != resolved_id(None, second),
        resolved_id(None, first) != resolved_id(Some(supplied), second),
{
}

} // verus!
