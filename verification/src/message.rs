//! Messages handed to the broker session.

use vstd::prelude::*;

verus! {

/// Delivery guarantee asked of the broker.
#[derive(Clone, Copy, Debug, PartialEq, Eq, Structural)]
pub enum QoS {
    AtMostOnce,
    AtLeastOnce,
    ExactlyOnce,
}

impl QoS {
    /// Whether the session offers this guarantee: everything but
    /// `ExactlyOnce`.
    pub open spec fn supported(self) -> bool {
        self != QoS::ExactlyOnce
    }

    /// Whether the session offers this guarantee.
    pub fn is_supported(self) -> (supported: bool)
        ensures
            supported == self.supported(),
    {
        match self {
            QoS::AtMostOnce => true,
            QoS::AtLeastOnce => true,
            QoS::ExactlyOnce => false,
        }
    }
}

/// What a message stands for: its topic, its payload and its guarantee.
pub struct MessageView {
    pub topic: Seq<char>,
    pub payload: Seq<u8>,
    pub qos: QoS,
}

/// One message for the broker. It cannot be changed once it is made.
#[derive(Clone, Debug, PartialEq, Eq)]
pub struct Message {
    topic: String,
    payload: Vec<u8>,
    qos: QoS,
}

impl View for Message {
    type V = MessageView;

    closed spec fn view(&self) -> MessageView {
        MessageView { topic: self.topic@, payload: self.payload@, qos: self.qos }
    }
}

impl Message {
    /// A message with the given topic, payload and guarantee.
    pub fn new(topic: String, payload: Vec<u8>, qos: QoS) -> (message: Message)
        ensures
            message@ == (MessageView { topic: topic@, payload: payload@, qos }),
    {
        Message { topic, payload, qos }
    }

    /// The topic.
    pub fn topic(&self) -> (topic: &String)
        ensures
            topic@ == self@.topic,
    {
        &self.topic
    }

    /// The payload.
    pub fn payload(&self) -> (payload: &Vec<u8>)
        ensures
            payload@ == self@.payload,
    {
        &self.payload
    }

    /// The guarantee.
    pub fn qos(&self) -> (qos: QoS)
        ensures
            qos == self@.qos,
    {
        self.qos
    }
}

} // verus!
