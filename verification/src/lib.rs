//! Command resolution for a chat bot: a chat line is matched against the
//! command prefix, resolved against the built-in registry and the store of
//! custom commands, and turned into a reply.

pub mod action;
pub mod config;
pub mod dispatch;
pub mod handlers;
pub mod laws;
pub mod line;
pub mod registry;
pub mod reply;
pub mod state;
pub mod store;
pub mod tokenizer;
