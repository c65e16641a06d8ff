//! The dispatch engine: what to do about one inbound event.

use crate::action::{Action, ActionView};
use crate::classifier::classified;
use crate::event::{opens_command, InboundEvent, InboundEventView, MessageView};
use crate::handler::command::{
    command_name, command_plan, command_remainder, command_store, handle_command, Command,
};
use crate::handler::inline_query::{handle_inline_query, inline_query_plan};
use crate::handler::message::{handle_message, message_plan};
use crate::resolver::mentioned;
use crate::store::{toggled, PreferenceStore};
use vstd::prelude::*;
use vstd::string::*;

pub mod command;
pub mod inline_query;
pub mod message;

verus! {

/// What the handlers share: the bot's handle and the preference store.
pub struct Context {
    pub username: String,
    pub message_trigger: PreferenceStore,
}

/// The handle by which a bot registered as `username` is mentioned.
pub fn bot_handle(username: &str) -> (handle: String)
    ensures
        handle@ == seq!['@'] + username@,
{
    proof {
        reveal_strlit("@");
    }
    let handle = String::from_str("@").concat(username);
    assert(handle@ =~= seq!['@'] + username@);
    handle
}

/// Whether `update` is a command: a message whose text opens with the
/// command marker.
pub open spec fn commands(update: InboundEventView) -> bool {
    update matches InboundEventView::Message(message) && opens_command(message.text)
}

/// What is done about `update` while `enabled` holds the preferences and
/// the bot is known as `handle`: a message is a command if its text opens
/// with the command marker and a plain message if not; an inline query is
/// answered; any other update is discarded.
pub open spec fn update_plan(
    enabled: Set<i64>,
    handle: Seq<char>,
    update: InboundEventView,
) -> ActionView {
    match update {
        InboundEventView::Message(message) => {
            if opens_command(message.text) {
                command_plan(
                    enabled,
                    handle,
                    message.chat_id,
                    message.kind,
                    command_name(message.text),
                    command_remainder(message.text),
                )
            } else {
                message_plan(enabled, handle, message.chat_id, message.kind, message.text)
            }
        },
        InboundEventView::InlineQuery { query_text, .. } => inline_query_plan(query_text),
        InboundEventView::Other => ActionView::Discard,
    }
}

/// The preferences after `update`: only a command can change them.
pub open spec fn update_store(
    enabled: Set<i64>,
    handle: Seq<char>,
    update: InboundEventView,
) -> Set<i64> {
    match update {
        InboundEventView::Message(message) => {
            if opens_command(message.text) {
                command_store(
                    enabled,
                    handle,
                    message.chat_id,
                    message.kind,
                    command_name(message.text),
                    command_remainder(message.text),
                )
            } else {
                enabled
            }
        },
        _ => enabled,
    }
}

/// The preferences change by nothing but a command that selects the
/// toggle, and every change is handed out for a flush: the plan is to
/// persist exactly if the preferences change, and what is persisted is the
/// preferences as they are after the change.
pub proof fn lemma_change_is_flushed(
    enabled: Set<i64>,
    handle: Seq<char>,
    update: InboundEventView,
)
    ensures
        update_store(enabled, handle, update) != enabled <==> update_plan(enabled, handle, update)
            is Persist,
        update_plan(enabled, handle, update) matches ActionView::Persist { ids, .. } ==> ids
            == update_store(enabled, handle, update),
        update_store(enabled, handle, update) != enabled ==> ({
            &&& update matches InboundEventView::Message(message)
            &&& opens_command(message.text)
            &&& classified(command_name(message.text)) is TogglePreference
            &&& update_store(enabled, handle, update) == toggled(enabled, message.chat_id)
        }),
{
    if let InboundEventView::Message(message) = update {
        assert(toggled(enabled, message.chat_id).contains(message.chat_id) != enabled.contains(
            message.chat_id,
        ));
    }
}

/// Outside a private conversation the bot keeps silent unless it is
/// mentioned: a message whose text, or whose remainder after the command
/// name, holds no mention at an edge is discarded and changes nothing.
pub proof fn lemma_silent_without_mention(
    enabled: Set<i64>,
    handle: Seq<char>,
    message: MessageView,
)
    requires
        !(message.kind is Private),
        !mentioned(
            if opens_command(message.text) {
                command_remainder(message.text)
            } else {
                message.text
            },
            handle,
        ),
    ensures
        update_plan(enabled, handle, InboundEventView::Message(message)) is Discard,
        update_store(enabled, handle, InboundEventView::Message(message)) == enabled,
{
}

/// Handles one update.
pub fn handle_update(cx: &mut Context, update: &InboundEvent) -> (action: Action)
    ensures
        action@ == update_plan(old(cx).message_trigger@, old(cx).username@, update@),
        final(cx).message_trigger@ == update_store(
            old(cx).message_trigger@,
            old(cx).username@,
            update@,
        ),
        final(cx).username == old(cx).username,
        action.well_formed(),
{
    match update {
        InboundEvent::Message(message) => {
            if message.is_command() {
                let cmd = Command::parse(message);
                handle_command(cx, &cmd)
            } else {
                handle_message(cx, message)
            }
        },
        InboundEvent::InlineQuery { query_text, .. } => handle_inline_query(query_text.as_str()),
        InboundEvent::Other => Action::Discard,
    }
}

/// The entry point of the engine: it owns the context and takes the
/// updates one at a time.
pub struct Handler(Context);

impl Handler {
    /// The context that the handler works on.
    pub closed spec fn context(&self) -> Context {
        self.0
    }

    /// A handler for the bot known as `username`, over the preferences in
    /// `database`.
    pub fn new(database: PreferenceStore, username: String) -> (handler: Handler)
        ensures
            handler.context().message_trigger == database,
            handler.context().username == username,
    {
        Handler(Context { username, message_trigger: database })
    }

    /// Handles one update without exclusive access, where that can be done:
    /// every update but a command, which alone may change the preferences
    /// and is left to [`Handler::handle`].
    pub fn handle_shared(&self, update: &InboundEvent) -> (action: Option<Action>)
        ensures
            match action {
                Some(action) => {
                    &&& !commands(update@)
                    &&& action@ == update_plan(
                        self.context().message_trigger@,
                        self.context().username@,
                        update@,
                    )
                    &&& action.well_formed()
                },
                None => commands(update@),
            },
    {
        match update {
            InboundEvent::Message(message) => {
                if message.is_command() {
                    None
                } else {
                    Some(handle_message(&self.0, message))
                }
            },
            InboundEvent::InlineQuery { query_text, .. } => Some(
                handle_inline_query(query_text.as_str()),
            ),
            InboundEvent::Other => Some(Action::Discard),
        }
    }

    /// Handles one update. Failures of the outside work never come back
    /// here: they end in an action that sends nothing.
    pub fn handle(&mut self, update: &InboundEvent) -> (action: Action)
        ensures
            action@ == update_plan(
                old(self).context().message_trigger@,
                old(self).context().username@,
                update@,
            ),
            final(self).context().message_trigger@ == update_store(
                old(self).context().message_trigger@,
                old(self).context().username@,
                update@,
            ),
            final(self).context().username == old(self).context().username,
            action.well_formed(),
    {
        handle_update(&mut self.0, update)
    }
}

} // verus!
