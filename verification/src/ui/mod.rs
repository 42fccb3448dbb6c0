//! The logic behind the interface's components: cards, prompts, the
//! toolbar, completions, the composer, the model picker and more. Drawing
//! them is left to the application.

pub mod wave;
pub mod toolbar;
pub mod prompts;
pub mod cards;
pub mod subagent;
pub mod model_picker;
pub mod completions;
pub mod composer;
pub mod chat;
pub mod hashline;
pub mod borders;
pub mod gif;
pub mod banner;
