//! Verified core of an interactive shell that drives a binary-analysis
//! backend: command parsing and routing, the single-slot project store,
//! source-string resolution, message rendering, and the pure parts of
//! line completion. The I/O loop, the line editor and the analysis
//! engine itself live outside this crate and only call into it.

pub mod command;
pub mod complete;
pub mod modes;
pub mod message;
pub mod output;
pub mod router;
pub mod source;
pub mod tokenize;
pub mod store;
pub mod text;
