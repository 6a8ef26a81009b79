//! The reusable UI widgets' state and the decisions made from it.
pub mod descendants;
pub mod keyboard;
pub mod layout;
pub mod state;
pub mod style;
pub mod table;
pub mod text_input;
