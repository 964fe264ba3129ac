//! Local-first database connection manager: the decisions of the connection
//! builder, the backup migration and the live state, and the value codec of
//! the query gateway, each with a machine-checked contract.
//!
//! The library performs no I/O. Where work alternates between the engine or
//! the file system and a decision, the decision is a step function here and
//! the caller carries out the action it names.

pub mod base64;
pub mod builder;
pub mod codec;
pub mod config;
pub mod gateway;
pub mod migration;
pub mod state;
pub mod text;
pub mod values;
