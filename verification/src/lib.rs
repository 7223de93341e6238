//! The crop tool and the text tool of a screenshot annotator.
//!
//! What the tools decide is here; what only a host can do (show windows, keep text buffers, read
//! clipboards, measure and draw text) is asked of it by plain values.

pub mod canvas;
pub mod ime;
pub mod math;
pub mod math_laws;
pub mod scalar;
pub mod sketch_board;
pub mod style;
pub mod tools;
