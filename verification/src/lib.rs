//! Declarative workflows and the terminal shell that watches them run.
//!
//! [`text`] holds the character-level vocabulary the rest of the crate speaks:
//! strings are seen as sequences of characters, ordered and trimmed exactly as
//! the standard library documents it.
pub mod digest;
pub mod lines;
pub mod number;
pub mod number_laws;
pub mod stamp;
pub mod text;
pub mod text_laws;
pub mod text_map;
pub mod tui;
pub mod workflow;
