//! The fixed texts that the bot replies with.

use vstd::prelude::*;

verus! {

/// The reply to a request that holds nothing to translate.
pub const NO_INPUT: &'static str = "No input";

/// The reply to a lookup that found nothing.
pub const NOT_FOUND: &'static str = "No paraphrase found";

/// The confirmation that the conversation has opted in.
pub const ENABLED: &'static str =
    "Okay. I will translate all non-command messages in this chat (You still need to @ me if it is in a group)";

/// The confirmation that the conversation has opted out.
pub const DISABLED: &'static str = "OK. I will only translate the words after the /dict command";

/// The list of commands, in rich text.
pub const HELP_TEXT: &'static str =
    "\n/dict <i>[word / phrase]</i> - Translate a word or phrase\n/toggle - Switch to the mode of translating all messages in the current chat\n/about - About this bot\n/help - Get this help message\n\nInline mode is also supported: just @ me and type in the word or phrase you want to translate\n";

/// The greeting, in rich text.
pub const START_TEXT: &'static str =
    "This bot uses Bing Dictionary to translate words and phrases between English and Chinese\n\nUse <i>/help</i> to get more information";

/// What the bot is.
pub const ABOUT_TEXT: &'static str =
    "A Telegram bot using Bing Dictionary to translate words and phrases between English and Chinese";

} // verus!
