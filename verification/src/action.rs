//! What the engine asks its caller to do, and how the caller reports back.
//!
//! The engine decides and the caller acts. A handler takes an event and
//! returns an [`Action`]. Where the action asks for outside work (a lookup,
//! a flush), the caller performs it and hands the [`Outcome`] to
//! [`Action::resume`], which returns what finally goes out.

use crate::replies::NOT_FOUND;
use crate::store::PersistenceError;
use vstd::prelude::*;
use vstd::string::*;

verus! {

/// One entry of the answer to an inline query: it is known by `id`, shown
/// under `title`, and sends `text` when chosen.
#[derive(Debug, PartialEq, Eq)]
pub struct Article {
    pub id: String,
    pub title: String,
    pub text: String,
}

/// An [`Article`] as plain mathematical values.
pub struct ArticleView {
    pub id: Seq<char>,
    pub title: Seq<char>,
    pub text: Seq<char>,
}

impl View for Article {
    type V = ArticleView;

    open spec fn view(&self) -> ArticleView {
        ArticleView { id: self.id@, title: self.title@, text: self.text@ }
    }
}

/// What is to be done about an event.
#[derive(Debug, PartialEq, Eq)]
pub enum Action {
    /// Nothing goes out.
    Discard,
    /// `text` is sent in reply to the message, as rich text if `rich_text`.
    Reply { text: String, rich_text: bool },
    /// The inline query is answered with `result`, or with no entry.
    Answer { result: Option<Article> },
    /// `payload` is to be looked up; the reply follows from the outcome.
    Translate { payload: String },
    /// `query` is to be looked up; the answer follows from the outcome.
    TranslateInline { query: String },
    /// The preferences, now `ids`, are to be flushed; `confirmation` is
    /// sent only once they are durable.
    Persist { ids: Vec<i64>, confirmation: String },
}

/// An [`Action`] as plain mathematical values.
pub enum ActionView {
    Discard,
    Reply { text: Seq<char>, rich_text: bool },
    Answer { result: Option<ArticleView> },
    Translate { payload: Seq<char> },
    TranslateInline { query: Seq<char> },
    Persist { ids: Set<i64>, confirmation: Seq<char> },
}

impl View for Action {
    type V = ActionView;

    open spec fn view(&self) -> ActionView {
        match *self {
            Action::Discard => ActionView::Discard,
            Action::Reply { text, rich_text } => ActionView::Reply { text: text@, rich_text },
            Action::Answer { result } => ActionView::Answer {
                result: match result {
                    Some(article) => Some(article@),
                    None => None,
                },
            },
            Action::Translate { payload } => ActionView::Translate { payload: payload@ },
            Action::TranslateInline { query } => ActionView::TranslateInline { query: query@ },
            Action::Persist { ids, confirmation } => ActionView::Persist {
                ids: ids@.to_set(),
                confirmation: confirmation@,
            },
        }
    }
}

impl ActionView {
    /// Whether outside work is still to be done before anything goes out.
    pub open spec fn is_pending(self) -> bool {
        self is Translate || self is TranslateInline || self is Persist
    }
}

/// The lookup itself failed; nothing of it is shown to the user.
#[derive(Clone, Copy, Debug, PartialEq, Eq, Structural)]
pub struct TranslationError;

/// How the outside work that an action asked for ended.
#[derive(Debug, PartialEq, Eq)]
pub enum Outcome {
    /// The lookup ended: with a translation, with none, or in failure.
    Translated(Result<Option<String>, TranslationError>),
    /// The flush ended.
    Flushed(Result<(), PersistenceError>),
}

/// An [`Outcome`] as plain mathematical values.
pub enum OutcomeView {
    Translated(Result<Option<Seq<char>>, TranslationError>),
    Flushed(Result<(), PersistenceError>),
}

impl View for Outcome {
    type V = OutcomeView;

    open spec fn view(&self) -> OutcomeView {
        match *self {
            Outcome::Translated(Ok(Some(text))) => OutcomeView::Translated(Ok(Some(text@))),
            Outcome::Translated(Ok(None)) => OutcomeView::Translated(Ok(None)),
            Outcome::Translated(Err(error)) => OutcomeView::Translated(Err(error)),
            Outcome::Flushed(result) => OutcomeView::Flushed(result),
        }
    }
}

/// What is shown for a lookup that ended without failure: the translation,
/// or the fixed text that says there is none.
pub open spec fn shown(found: Option<Seq<char>>) -> Seq<char> {
    match found {
        Some(text) => text,
        None => NOT_FOUND@,
    }
}

/// What goes out once the work that `pending` asked for has ended in
/// `outcome`. A lookup that ended without failure is replied with what it
/// found, or answered with one entry that is known by the query and shows
/// and sends what was found; a flush that succeeded releases the
/// confirmation. A failure, or an outcome that the action did not ask for,
/// sends nothing.
pub open spec fn resumed(pending: ActionView, outcome: OutcomeView) -> ActionView {
    match (pending, outcome) {
        (ActionView::Translate { .. }, OutcomeView::Translated(Ok(found))) => ActionView::Reply {
            text: shown(found),
            rich_text: false,
        },
        (ActionView::TranslateInline { query }, OutcomeView::Translated(Ok(found))) => {
            ActionView::Answer {
                result: Some(ArticleView { id: query, title: shown(found), text: shown(found) }),
            }
        },
        (ActionView::Persist { confirmation, .. }, OutcomeView::Flushed(Ok(_))) => {
            ActionView::Reply { text: confirmation, rich_text: false }
        },
        _ => ActionView::Discard,
    }
}

impl Action {
    /// Whether the conversations to flush are listed once each.
    pub open spec fn well_formed(&self) -> bool {
        match *self {
            Action::Persist { ids, .. } => ids@.no_duplicates(),
            _ => true,
        }
    }

    /// Decides whether outside work is still to be done.
    pub fn is_pending(&self) -> (pending: bool)
        ensures
            pending == self@.is_pending(),
    {
        match self {
            Action::Translate { .. } => true,
            Action::TranslateInline { .. } => true,
            Action::Persist { .. } => true,
            _ => false,
        }
    }

    /// Takes the event on once the outside work has ended in `outcome`.
    /// What comes back asks for no further work.
    pub fn resume(self, outcome: Outcome) -> (next: Action)
        ensures
            next@ == resumed(self@, outcome@),
            !next@.is_pending(),
            next.well_formed(),
    {
        match (self, outcome) {
            (Action::Translate { .. }, Outcome::Translated(Ok(found))) => Action::Reply {
                text: text_shown(found),
                rich_text: false,
            },
            (Action::TranslateInline { query }, Outcome::Translated(Ok(found))) => {
                let text = text_shown(found);
                Action::Answer { result: Some(Article { id: query, title: text.clone(), text }) }
            },
            (Action::Persist { confirmation, .. }, Outcome::Flushed(Ok(_))) => Action::Reply {
                text: confirmation,
                rich_text: false,
            },
            _ => Action::Discard,
        }
    }
}

/// The text to show for a lookup that ended without failure.
fn text_shown(found: Option<String>) -> (text: String)
    ensures
        text@ == shown(
            match found {
                Some(t) => Some(t@),
                None => None,
            },
        ),
{
    match found {
        Some(text) => text,
        None => String::from_str(NOT_FOUND),
    }
}

} // verus!
