//! The bridge from inbound commands to outbound messages.

use crate::config::DEFAULT_MAX_COMMAND_BYTES;
use crate::form::{command_from_form, command_text, decoded_form, ValidationError};
use crate::message::{Message, MessageView, QoS};
use crate::session::{session_publish, SessionManager};
use vstd::prelude::*;
use vstd::slice::slice_to_vec;

verus! {

/// What the bridge stands for.
pub struct CommandBridgeView {
    pub topic: Seq<char>,
    pub qos: QoS,
    pub max_bytes: nat,
}

/// The message that a command text becomes: the text's bytes as payload
/// on the bridge's topic. A text of more bytes than the bridge allows is
/// refused.
pub open spec fn translated(bridge: CommandBridgeView, text: Seq<char>) -> Result<
    MessageView,
    ValidationError,
> {
    if vstd::utf8::encode_utf8(text).len() > bridge.max_bytes {
        Err(ValidationError::TooLong)
    } else {
        Ok(
            MessageView {
                topic: bridge.topic,
                payload: vstd::utf8::encode_utf8(text),
                qos: bridge.qos,
            },
        )
    }
}

/// The message that a decoded form becomes, or the reason why it becomes
/// none.
pub open spec fn translated_form(
    bridge: CommandBridgeView,
    decoded: Option<Seq<(Seq<char>, Seq<char>)>>,
) -> Result<MessageView, ValidationError> {
    match command_text(decoded) {
        Ok(text) => translated(bridge, text),
        Err(e) => Err(e),
    }
}

/// Whether `result` is the message, or the refusal, that `expected` says.
pub open spec fn translates_to(
    result: Result<Message, ValidationError>,
    expected: Result<MessageView, ValidationError>,
) -> bool {
    match result {
        Ok(message) => expected == Ok::<MessageView, ValidationError>(message@),
        Err(e) => expected == Err::<MessageView, ValidationError>(e),
    }
}

/// Bridge from validated command strings to the publish path.
pub struct CommandBridge {
    topic: String,
    qos: QoS,
    max_bytes: usize,
}

impl View for CommandBridge {
    type V = CommandBridgeView;

    closed spec fn view(&self) -> CommandBridgeView {
        CommandBridgeView { topic: self.topic@, qos: self.qos, max_bytes: self.max_bytes as nat }
    }
}

impl CommandBridge {
    /// A bridge that publishes on `topic` and takes commands of up to
    /// `max_bytes` bytes.
    pub fn new(topic: String, qos: QoS, max_bytes: usize) -> (bridge: CommandBridge)
        ensures
            bridge@ == (CommandBridgeView { topic: topic@, qos, max_bytes: max_bytes as nat }),
    {
        CommandBridge { topic, qos, max_bytes }
    }

    /// A bridge that publishes on `topic` at least once and takes commands
    /// of the default length.
    pub fn with_defaults(topic: String) -> (bridge: CommandBridge)
        ensures
            bridge@ == (CommandBridgeView {
                topic: topic@,
                qos: QoS::AtLeastOnce,
                max_bytes: DEFAULT_MAX_COMMAND_BYTES as nat,
            }),
    {
        CommandBridge::new(topic, QoS::AtLeastOnce, DEFAULT_MAX_COMMAND_BYTES)
    }

    /// The topic that the bridge publishes on.
    pub fn topic(&self) -> (topic: &String)
        ensures
            topic@ == self@.topic,
    {
        &self.topic
    }

    /// The longest command text that the bridge takes, in bytes.
    pub fn max_bytes(&self) -> (max_bytes: usize)
        ensures
            max_bytes == self@.max_bytes,
    {
        self.max_bytes
    }

    /// Validates a command text and makes the message for it.
    pub fn translate(&self, raw_command: &str) -> (message: Result<Message, ValidationError>)
        ensures
            translates_to(message, translated(self@, raw_command@)),
            message is Ok <==> vstd::utf8::encode_utf8(raw_command@).len() <= self@.max_bytes,
    {
        let bytes = raw_command.as_bytes();
        if bytes.len() > self.max_bytes {
            return Err(ValidationError::TooLong);
        }
        Ok(Message::new(self.topic.clone(), slice_to_vec(bytes), self.qos))
    }

    /// Validates a command that arrives as a form body and makes the
    /// message for it.
    pub fn translate_form(&self, body: &[u8]) -> (message: Result<Message, ValidationError>)
        ensures
            translates_to(message, translated_form(self@, decoded_form(body@))),
    {
        match command_from_form(body) {
            Ok(text) => self.translate(text.as_str()),
            Err(e) => Err(e),
        }
    }

    /// Validates a command text and publishes the message for it. A
    /// refused command leaves the session as it was.
    pub fn forward(&self, raw_command: &str, session: &mut SessionManager) -> (outcome: Result<
        (),
        ValidationError,
    >)
        ensures
            match translated(self@, raw_command@) {
                Ok(message) => outcome is Ok && final(session)@ == session_publish(
                    old(session)@,
                    message,
                ),
                Err(e) => outcome == Err::<(), ValidationError>(e) && final(session)@ == old(
                    session,
                )@,
            },
    {
        match self.translate(raw_command) {
            Ok(message) => {
                session.publish(message);
                Ok(())
            },
            Err(e) => Err(e),
        }
    }

    /// Validates a command that arrives as a form body and publishes the
    /// message for it. A refused command leaves the session as it was.
    pub fn forward_form(&self, body: &[u8], session: &mut SessionManager) -> (outcome: Result<
        (),
        ValidationError,
    >)
        ensures
            match translated_form(self@, decoded_form(body@)) {
                Ok(message) => outcome is Ok && final(session)@ == session_publish(
                    old(session)@,
                    message,
                ),
                Err(e) => outcome == Err::<(), ValidationError>(e) && final(session)@ == old(
                    session,
                )@,
            },
    {
        match self.translate_form(body) {
            Ok(message) => {
                session.publish(message);
                Ok(())
            },
            Err(e) => Err(e),
        }
    }
}

} // verus!
