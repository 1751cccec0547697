//! Errors of the backend and the texts they are reported with.

use vstd::prelude::*;

verus! {

/// `String::push_str` appends the given slice to the end of the string and
/// leaves what was there before in place.
pub assume_specification[ String::push_str ](text: &mut String, tail: &str)
    ensures
        final(text)@ == old(text)@ + tail@,
;

/// What can go wrong in the backend.
#[derive(Debug, Clone, PartialEq, Eq)]
pub enum PubSubError {
    /// The broker client could not be set up, or refused a publish.
    Client(String),
    /// The codec failed to encode or decode a payload.
    Codec(String),
    /// The broker did not take an acknowledgment or a negative one.
    AckFailed(String),
    /// The receive loop of the subscription ended abnormally.
    Subscription(String),
}

impl PubSubError {
    /// The text that comes before the detail in `message`.
    pub open spec fn prefix(self) -> Seq<char> {
        match self {
            PubSubError::Client(_) => "Pub/Sub client error: "@,
            PubSubError::Codec(_) => "Codec error: "@,
            PubSubError::AckFailed(_) => "Message acknowledgment failed: "@,
            PubSubError::Subscription(_) => "Subscription error: "@,
        }
    }

    /// The detail that the failing operation reported.
    pub open spec fn detail(self) -> Seq<char> {
        match self {
            PubSubError::Client(detail) => detail@,
            PubSubError::Codec(detail) => detail@,
            PubSubError::AckFailed(detail) => detail@,
            PubSubError::Subscription(detail) => detail@,
        }
    }

    /// The error as one line of text: the prefix of its kind, then the detail.
    pub fn message(&self) -> (text: String)
        ensures
            text@ == self.prefix() + self.detail(),
    {
        match self {
            PubSubError::Client(detail) => join("Pub/Sub client error: ", detail),
            PubSubError::Codec(detail) => join("Codec error: ", detail),
            PubSubError::AckFailed(detail) => join("Message acknowledgment failed: ", detail),
            PubSubError::Subscription(detail) => join("Subscription error: ", detail),
        }
    }
}

fn join(head: &str, tail: &String) -> (text: String)
    ensures
        text@ == head@ + tail@,
{
    let mut text = head.to_owned();
    text.push_str(tail.as_str());
    text
}

} // verus!
