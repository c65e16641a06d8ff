//! Plain messages: text that does not open with the command marker.

use crate::action::{Action, ActionView};
use crate::event::Message;
use crate::handler::Context;
use crate::replies::NO_INPUT;
use crate::resolver::{is_addressed, resolve, without_mention, ConversationKind};
use vstd::prelude::*;
use vstd::string::*;

verus! {

/// What is done about the plain message `text`, sent in conversation
/// `chat_id` of kind `kind`, while `enabled` holds the preferences and the
/// bot is known as `handle`.
///
/// A conversation that has not opted in gets no reply, nor does a message
/// that is not directed at the bot. A message that holds only the mention is
/// told that there is no input; any other is looked up.
pub open spec fn message_plan(
    enabled: Set<i64>,
    handle: Seq<char>,
    chat_id: i64,
    kind: ConversationKind,
    text: Seq<char>,
) -> ActionView {
    if !enabled.contains(chat_id) || !is_addressed(text, handle, kind) {
        ActionView::Discard
    } else {
        let payload = without_mention(text, handle);
        if payload.len() == 0 {
            ActionView::Reply { text: NO_INPUT@, rich_text: false }
        } else {
            ActionView::Translate { payload }
        }
    }
}

/// Handles one plain message. The preferences are read, never changed.
pub fn handle_message(cx: &Context, msg: &Message) -> (action: Action)
    ensures
        action@ == message_plan(
            cx.message_trigger@,
            cx.username@,
            msg@.chat_id,
            msg@.kind,
            msg@.text,
        ),
        action.well_formed(),
{
    if !cx.message_trigger.contains(msg.chat_id()) {
        return Action::Discard;
    }
    let resolved = resolve(msg.text(), cx.username.as_str(), msg.kind());
    match resolved.payload {
        Some(payload) => {
            if payload.as_str().is_empty() {
                Action::Reply { text: String::from_str(NO_INPUT), rich_text: false }
            } else {
                Action::Translate { payload }
            }
        },
        None => Action::Discard,
    }
}

} // verus!
