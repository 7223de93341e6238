//! The text tool.

pub mod buffer;
pub mod content;
pub mod draw;
pub mod draw_laws;
pub mod edit_laws;
pub mod effect;
pub mod event_laws;
pub mod index;
pub mod keys;
pub mod laws;
pub mod layout;
pub mod place_laws;
pub mod plan;
pub mod pointer;
pub mod shown_laws;
pub mod steps;
pub mod tool;
