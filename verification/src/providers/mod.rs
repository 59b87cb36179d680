//! What the built-in model backends send and what their replies mean.
//!
//! The requests themselves are made elsewhere: the functions here build
//! the bodies to send and read the bodies that come back.

pub mod anthropic;
pub mod chat;
pub mod embedding;
pub mod openai;
