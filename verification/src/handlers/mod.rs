//! Input handling: key and mouse events and the decisions taken on them.

pub mod events;
pub mod input;
pub mod keys;
pub mod mouse;
