//! Messages exchanged on the local bus.

use vstd::prelude::*;

verus! {

/// A message on the local bus: a topic and a textual payload.
#[derive(Debug)]
pub struct Message {
    pub topic: String,
    pub payload: String,
}

/// The mathematical content of a [`Message`].
pub struct MessageView {
    pub topic: Seq<char>,
    pub payload: Seq<char>,
}

impl View for Message {
    type V = MessageView;

    open spec fn view(&self) -> MessageView {
        MessageView { topic: self.topic@, payload: self.payload@ }
    }
}

impl Message {
    /// Builds a message for `topic` carrying `payload`.
    pub fn new(topic: &str, payload: &str) -> (message: Message)
        ensures
            message@.topic == topic@,
            message@.payload == payload@,
    {
        Message { topic: String::from_str(topic), payload: String::from_str(payload) }
    }
}

} // verus!
