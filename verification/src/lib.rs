//! The dispatch and preference engine of a chat bot that looks words up
//! in a dictionary.
//!
//! The engine classifies each event that the transport delivers, decides
//! whether a text is directed at the bot and what the user asked for, keeps
//! the conversations that have opted in to having their plain messages
//! looked up, and says what is to be sent. It does no input or output of
//! its own: lookups, flushes and sending are asked of the caller as
//! [`action::Action`]s.

pub mod action;
pub mod classifier;
pub mod config;
pub mod event;
pub mod handler;
pub mod replies;
pub mod resolver;
pub mod store;
pub mod text;

pub use crate::config::Config;
pub use crate::handler::Handler;
