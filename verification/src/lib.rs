//! The command core of a chat assistant: the store of per-server settings,
//! the catalogue of commands, the normalizer that turns a message or a
//! structured interaction into one invocation, and the router that decides,
//! step by step, what is sent back.

pub mod chatbot;
pub mod database;
pub mod invocation;
pub mod lunch_fetch;
pub mod registry;
pub mod reply;
pub mod router;
pub mod rozvrh;
pub mod text;
pub mod zmeny;
