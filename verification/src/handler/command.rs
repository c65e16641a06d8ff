//! Commands: a message whose text opens with the command marker.

use crate::classifier::{classified, classify, CommandKind};
use crate::event::Message;
use crate::action::{Action, ActionView};
use crate::handler::Context;
use crate::replies::{ABOUT_TEXT, DISABLED, ENABLED, HELP_TEXT, NO_INPUT, START_TEXT};
use crate::resolver::{is_addressed, resolve, without_mention, ConversationKind};
use crate::store::toggled;
use crate::text::{chars_of, is_space, is_whitespace};
use vstd::prelude::*;
use vstd::string::*;

verus! {

/// Whether `c` ends a command name: white space, or the `@` that joins a
/// mention to the name.
pub open spec fn ends_name(c: char) -> bool {
    is_space(c) || c == '@'
}

/// The length of the command name that opens `text`: the characters up to
/// the first one that ends a name.
pub open spec fn name_len(text: Seq<char>) -> nat
    decreases text.len(),
{
    if text.len() == 0 || ends_name(text[0]) {
        0
    } else {
        1 + name_len(text.drop_first())
    }
}

/// The command name that opens `text`, marker included.
pub open spec fn command_name(text: Seq<char>) -> Seq<char> {
    text.take(name_len(text) as int)
}

/// What follows the command name in `text`, as it stands.
pub open spec fn command_remainder(text: Seq<char>) -> Seq<char> {
    text.skip(name_len(text) as int)
}

/// The name ends within the text, before the first character that ends a
/// name, and holds none.
pub proof fn lemma_name_len(text: Seq<char>)
    ensures
        name_len(text) <= text.len(),
        name_len(text) < text.len() ==> ends_name(text[name_len(text) as int]),
        forall|i: int| 0 <= i < name_len(text) ==> !ends_name(#[trigger] text[i]),
    decreases text.len(),
{
    if text.len() > 0 && !ends_name(text[0]) {
        let rest = text.drop_first();
        lemma_name_len(rest);
        assert forall|i: int| 0 <= i < name_len(text) implies !ends_name(#[trigger] text[i]) by {
            if i > 0 {
                assert(text[i] == rest[i - 1]);
            }
        }
    }
}

/// A command: its name and what follows it, with the conversation it was
/// sent in.
#[derive(Debug, PartialEq, Eq)]
pub struct Command {
    pub chat_id: i64,
    pub kind: ConversationKind,
    pub name: String,
    pub remainder: String,
}

impl Command {
    /// Splits the text of `message` into the command name and the
    /// remainder.
    pub fn parse(message: &Message) -> (cmd: Command)
        ensures
            cmd.chat_id == message@.chat_id,
            cmd.kind == message@.kind,
            cmd.name@ == command_name(message@.text),
            cmd.remainder@ == command_remainder(message@.text),
    {
        let text = message.text();
        let v = chars_of(text);
        let mut i: usize = 0;
        assert(v@.skip(0) =~= v@);
        while i < v.len() && !(is_whitespace(v[i]) || v[i] == '@')
            invariant
                i <= v.len(),
                name_len(v@) == i + name_len(v@.skip(i as int)),
            decreases v.len() - i,
        {
            assert(v@.skip(i as int).drop_first() =~= v@.skip(i + 1));
            i += 1;
        }
        let name = String::from_str(text.substring_char(0, i));
        let remainder = String::from_str(text.substring_char(i, v.len()));
        Command { chat_id: message.chat_id(), kind: message.kind(), name, remainder }
    }
}

/// What is done about the command `name` with `remainder`, sent in
/// conversation `chat_id` of kind `kind`, while `enabled` holds the
/// preferences and the bot is known as `handle`.
///
/// A command that is not directed at the bot, which can only be outside a
/// private conversation, is discarded, and so is one that the table does not
/// know. A translation with nothing to translate is told so at once. A flip
/// of the preference is confirmed only after the flush of the new set.
pub open spec fn command_plan(
    enabled: Set<i64>,
    handle: Seq<char>,
    chat_id: i64,
    kind: ConversationKind,
    name: Seq<char>,
    remainder: Seq<char>,
) -> ActionView {
    if !is_addressed(remainder, handle, kind) {
        ActionView::Discard
    } else {
        match classified(name) {
            CommandKind::Translate => {
                let payload = without_mention(remainder, handle);
                if payload.len() == 0 {
                    ActionView::Reply { text: NO_INPUT@, rich_text: false }
                } else {
                    ActionView::Translate { payload }
                }
            },
            CommandKind::TogglePreference => ActionView::Persist {
                ids: toggled(enabled, chat_id),
                confirmation: if enabled.contains(chat_id) {
                    DISABLED@
                } else {
                    ENABLED@
                },
            },
            CommandKind::Help => ActionView::Reply { text: HELP_TEXT@, rich_text: true },
            CommandKind::About => ActionView::Reply { text: ABOUT_TEXT@, rich_text: false },
            CommandKind::Start => ActionView::Reply { text: START_TEXT@, rich_text: true },
            CommandKind::Unknown => ActionView::Discard,
        }
    }
}

/// The preferences after the command: flipped for `chat_id` by a command
/// that is directed at the bot and selects the toggle, unchanged by any
/// other.
pub open spec fn command_store(
    enabled: Set<i64>,
    handle: Seq<char>,
    chat_id: i64,
    kind: ConversationKind,
    name: Seq<char>,
    remainder: Seq<char>,
) -> Set<i64> {
    if is_addressed(remainder, handle, kind) && classified(name) is TogglePreference {
        toggled(enabled, chat_id)
    } else {
        enabled
    }
}

/// Handles one command.
pub fn handle_command(cx: &mut Context, cmd: &Command) -> (action: Action)
    ensures
        action@ == command_plan(
            old(cx).message_trigger@,
            old(cx).username@,
            cmd.chat_id,
            cmd.kind,
            cmd.name@,
            cmd.remainder@,
        ),
        final(cx).message_trigger@ == command_store(
            old(cx).message_trigger@,
            old(cx).username@,
            cmd.chat_id,
            cmd.kind,
            cmd.name@,
            cmd.remainder@,
        ),
        final(cx).username == old(cx).username,
        action.well_formed(),
{
    let resolved = resolve(cmd.remainder.as_str(), cx.username.as_str(), cmd.kind);
    let payload = match resolved.payload {
        Some(payload) => payload,
        None => {
            return Action::Discard;
        },
    };
    match classify(cmd.name.as_str()) {
        CommandKind::Translate => {
            if payload.as_str().is_empty() {
                Action::Reply { text: String::from_str(NO_INPUT), rich_text: false }
            } else {
                Action::Translate { payload }
            }
        },
        CommandKind::TogglePreference => {
            let now_enabled = cx.message_trigger.toggle(cmd.chat_id);
            let ids = cx.message_trigger.snapshot();
            let confirmation = if now_enabled {
                String::from_str(ENABLED)
            } else {
                String::from_str(DISABLED)
            };
            Action::Persist { ids, confirmation }
        },
        CommandKind::Help => Action::Reply { text: String::from_str(HELP_TEXT), rich_text: true },
        CommandKind::About => Action::Reply {
            text: String::from_str(ABOUT_TEXT),
            rich_text: false,
        },
        CommandKind::Start => Action::Reply {
            text: String::from_str(START_TEXT),
            rich_text: true,
        },
        CommandKind::Unknown => Action::Discard,
    }
}

} // verus!
