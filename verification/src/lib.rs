//! Core logic of the Hermes terminal client: conversation state, sessions,
//! themes, key and mouse decisions, prompt state machines and the gateway
//! request bookkeeping, each with its contract.

pub mod chars;
pub mod clock;
pub mod engine;
pub mod error;
pub mod protocol;
pub mod text;
pub mod handlers;
pub mod state;
pub mod ui;
