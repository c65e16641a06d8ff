//! Inline queries: text typed after the bot's handle, answered in place.

use crate::action::{Action, ActionView};
use vstd::prelude::*;
use vstd::string::*;

verus! {

/// What is done about an inline query: an empty one is answered with no
/// entry, any other is looked up as it stands.
pub open spec fn inline_query_plan(query_text: Seq<char>) -> ActionView {
    if query_text.len() == 0 {
        ActionView::Answer { result: None }
    } else {
        ActionView::TranslateInline { query: query_text }
    }
}

/// Handles one inline query.
pub fn handle_inline_query(query_text: &str) -> (action: Action)
    ensures
        action@ == inline_query_plan(query_text@),
        action.well_formed(),
{
    if query_text.is_empty() {
        Action::Answer { result: None }
    } else {
        Action::TranslateInline { query: String::from_str(query_text) }
    }
}

} // verus!
