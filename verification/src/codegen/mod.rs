//! The rules behind the declarations of clients, loaders and tools: what a
//! declaration may say, and what follows from it.

pub mod client;
pub mod config;
pub mod doc;
pub mod loader;
pub mod tool;
