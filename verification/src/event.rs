//! The events that the transport delivers.

use crate::classifier::COMMAND_MARKER;
use crate::resolver::ConversationKind;
use vstd::prelude::*;
use vstd::string::*;

verus! {

/// Whether `text` opens with the command marker.
pub open spec fn opens_command(text: Seq<char>) -> bool {
    text.len() > 0 && text[0] == COMMAND_MARKER
}

/// Decides `opens_command`.
pub fn is_command_text(text: &str) -> (b: bool)
    ensures
        b == opens_command(text@),
{
    !text.is_empty() && text.get_char(0) == COMMAND_MARKER
}

/// A text message in a conversation. It records whether it is a command,
/// and the record always says what the text shows.
#[derive(Debug, PartialEq, Eq)]
pub struct Message {
    chat_id: i64,
    kind: ConversationKind,
    text: String,
    is_command: bool,
}

/// A [`Message`] as plain mathematical values.
pub struct MessageView {
    pub chat_id: i64,
    pub kind: ConversationKind,
    pub text: Seq<char>,
    pub is_command: bool,
}

impl View for Message {
    type V = MessageView;

    closed spec fn view(&self) -> MessageView {
        MessageView {
            chat_id: self.chat_id,
            kind: self.kind,
            text: self.text@,
            is_command: self.is_command,
        }
    }
}

impl Message {
    #[verifier::type_invariant]
    spec fn flag_fits(self) -> bool {
        self.is_command == opens_command(self.text@)
    }

    /// The message `text` sent in conversation `chat_id` of kind `kind`.
    pub fn new(chat_id: i64, kind: ConversationKind, text: String) -> (message: Message)
        ensures
            message@ == (MessageView {
                chat_id,
                kind,
                text: text@,
                is_command: opens_command(text@),
            }),
    {
        let is_command = is_command_text(text.as_str());
        Message { chat_id, kind, text, is_command }
    }

    /// The conversation that the message was sent in.
    pub fn chat_id(&self) -> (chat_id: i64)
        ensures
            chat_id == self@.chat_id,
    {
        self.chat_id
    }

    /// The kind of that conversation.
    pub fn kind(&self) -> (kind: ConversationKind)
        ensures
            kind == self@.kind,
    {
        self.kind
    }

    /// The text of the message.
    pub fn text(&self) -> (text: &str)
        ensures
            text@ == self@.text,
    {
        self.text.as_str()
    }

    /// Whether the message is a command: whether its text opens with the
    /// command marker.
    pub fn is_command(&self) -> (is_command: bool)
        ensures
            is_command == self@.is_command,
            is_command == opens_command(self@.text),
    {
        proof {
            use_type_invariant(self);
        }
        self.is_command
    }
}

/// One event delivered by the transport.
#[derive(Debug, PartialEq, Eq)]
pub enum InboundEvent {
    /// A text message in a conversation.
    Message(Message),
    /// A query typed after the bot's handle in any conversation.
    InlineQuery { id: String, query_text: String },
    /// Any other kind of update.
    Other,
}

/// An [`InboundEvent`] as plain mathematical values.
pub enum InboundEventView {
    Message(MessageView),
    InlineQuery { id: Seq<char>, query_text: Seq<char> },
    Other,
}

impl View for InboundEvent {
    type V = InboundEventView;

    open spec fn view(&self) -> InboundEventView {
        match *self {
            InboundEvent::Message(message) => InboundEventView::Message(message@),
            InboundEvent::InlineQuery { id, query_text } => InboundEventView::InlineQuery {
                id: id@,
                query_text: query_text@,
            },
            InboundEvent::Other => InboundEventView::Other,
        }
    }
}

impl InboundEvent {
    /// The event for the message `text` sent in conversation `chat_id`.
    pub fn message(chat_id: i64, kind: ConversationKind, text: String) -> (event: InboundEvent)
        ensures
            event@ == InboundEventView::Message(
                (MessageView { chat_id, kind, text: text@, is_command: opens_command(text@) }),
            ),
    {
        InboundEvent::Message(Message::new(chat_id, kind, text))
    }
}

} // verus!
