//! A verified core for conversations with a language model.
//!
//! A [`completion::Client`] keeps the history of a conversation, the tools
//! that the model may call with the state they share, the embedders that
//! supply context, and running token totals. A call is configured with a
//! [`completion::PromptBuilder`] and made with `send` or `extract`; what a
//! call leaves behind is stated by `completion::spec_send`, for every way
//! in which the model, the embedders and the tools may come back.
//!
//! The other modules hold what the client is made of and what stands
//! around it: messages and token accounting, tools and their dispatch, the
//! state store, JSON values and the schemas of tool parameters, what the
//! built-in backends send and what their replies mean, the decisions of the
//! file loaders, and the rules behind declarations of clients, loaders and
//! tools.
//!
//! Models, embedders, stores and tools are traits for the user to
//! implement. The library promises nothing of an implementation; its
//! contracts say what it makes of whatever an implementation returns.

pub mod codegen;
pub mod completion;
pub mod document;
pub mod embeddings;
pub mod error;
pub mod json;
pub mod loader;
pub mod message;
pub mod providers;
pub mod schema;
pub mod settings;
pub mod state;
pub mod text;
pub mod tools;
pub mod usage;
pub mod vector_store;
