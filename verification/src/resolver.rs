//! The addressing resolver: whether a text is directed at the bot, and what
//! the user supplied besides the mention.

use crate::text::{
    chars_of, ends_with_token, range_ends_with_token, range_starts_with_token, starts_with_token,
    trim, trim_range,
};
use vstd::prelude::*;
use vstd::string::*;

verus! {

/// The kind of conversation an event comes from.
#[derive(Clone, Copy, Debug, PartialEq, Eq, Structural)]
pub enum ConversationKind {
    Private,
    Group,
    Supergroup,
    Other,
}

/// What the resolver found: whether the text is directed at the bot and, if
/// it is, the text the user supplied. `Some` of the empty text means that
/// the bot was addressed with no input; `None` means that it was not
/// addressed at all.
#[derive(Debug, PartialEq, Eq)]
pub struct AddressedPayload {
    pub is_addressed: bool,
    pub payload: Option<String>,
}

impl AddressedPayload {
    /// The payload as a sequence of characters.
    pub open spec fn payload_text(&self) -> Option<Seq<char>> {
        match self.payload {
            Some(s) => Some(s@),
            None => None,
        }
    }
}

/// Whether the trimmed `text` begins or ends with `handle` as a token.
pub open spec fn mentioned(text: Seq<char>, handle: Seq<char>) -> bool {
    starts_with_token(trim(text), handle) || ends_with_token(trim(text), handle)
}

/// The trimmed `text` without the mention at its edge, trimmed once more. A
/// mention in front is taken before one at the end; only one is removed.
/// Without a mention this is the trimmed text.
pub open spec fn without_mention(text: Seq<char>, handle: Seq<char>) -> Seq<char> {
    let t = trim(text);
    if starts_with_token(t, handle) {
        trim(t.skip(handle.len() as int))
    } else if ends_with_token(t, handle) {
        trim(t.take(t.len() - handle.len()))
    } else {
        t
    }
}

/// Whether `text` is directed at the bot: always in a private conversation,
/// elsewhere only with a mention at an edge.
pub open spec fn is_addressed(text: Seq<char>, handle: Seq<char>, kind: ConversationKind) -> bool {
    kind is Private || mentioned(text, handle)
}

/// The payload of `text`: what is left without the mention where the text
/// is addressed, nothing where it is not.
pub open spec fn payload_of(text: Seq<char>, handle: Seq<char>, kind: ConversationKind) -> Option<
    Seq<char>,
> {
    if is_addressed(text, handle, kind) {
        Some(without_mention(text, handle))
    } else {
        None
    }
}

/// Resolves whether `text`, sent in a conversation of kind `kind`, is
/// directed at the bot known as `bot_handle`, and extracts the payload.
pub fn resolve(text: &str, bot_handle: &str, kind: ConversationKind) -> (r: AddressedPayload)
    ensures
        r.is_addressed == is_addressed(text@, bot_handle@, kind),
        r.payload_text() == payload_of(text@, bot_handle@, kind),
        kind is Private ==> r.is_addressed,
        (kind is Group || kind is Supergroup) && !mentioned(text@, bot_handle@) ==> !r.is_addressed
            && r.payload is None,
        r.is_addressed <==> r.payload is Some,
{
    let v = chars_of(text);
    let h = chars_of(bot_handle);
    assert(v@.subrange(0, v@.len() as int) =~= v@);
    let (a, b) = trim_range(&v, 0, v.len());
    let ghost t = trim(text@);
    if range_starts_with_token(&v, a, b, &h) {
        assert(t.skip(h@.len() as int) =~= v@.subrange(a + h@.len(), b as int));
        let (c, d) = trim_range(&v, a + h.len(), b);
        let rest = String::from_str(text.substring_char(c, d));
        AddressedPayload { is_addressed: true, payload: Some(rest) }
    } else if range_ends_with_token(&v, a, b, &h) {
        assert(t.take(t.len() - h@.len()) =~= v@.subrange(a as int, b - h@.len()));
        let (c, d) = trim_range(&v, a, b - h.len());
        let rest = String::from_str(text.substring_char(c, d));
        AddressedPayload { is_addressed: true, payload: Some(rest) }
    } else {
        match kind {
            ConversationKind::Private => {
                let rest = String::from_str(text.substring_char(a, b));
                AddressedPayload { is_addressed: true, payload: Some(rest) }
            },
            _ => AddressedPayload { is_addressed: false, payload: None },
        }
    }
}

} // verus!
