//! Conversation sessions of a chat bot that relays prompts to a remote
//! completion API: the per-conversation message log, the settings, and the
//! decisions taken on each command, with their contracts.

pub mod chat_history;
pub mod config_manager;
pub mod open_ai_api;
pub mod response;
