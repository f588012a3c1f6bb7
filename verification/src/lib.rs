//! Conversation memory for a chat bot: dialogue turns, prompt assembly,
//! bounded retention of the live history, and the bot's configuration.

pub mod discussion;
pub mod memory;
pub mod config;
pub mod json;
pub mod bot;
pub mod laws;
