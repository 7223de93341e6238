//! The tools of the sketch board.

pub mod crop;
pub mod crop_laws;
pub mod text;
