//! Application state: configuration and themes, capabilities, the hashline
//! edit parser, message history and sessions.

pub mod capabilities;
pub mod color;

pub mod config;
pub mod hashline;
pub mod messages;
pub mod session;
pub mod conversation;
pub mod prompt_flow;
pub mod keymap;
pub mod commands;
