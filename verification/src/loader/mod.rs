//! Decisions of the file loaders: which patterns are valid, which file
//! system events matter and what document each stands for, and which
//! directories are watched.

pub mod events;
pub mod files;
pub mod paths;
pub mod direct;
pub mod web;
