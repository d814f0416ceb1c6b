//! A chat relay between line-oriented clients and a hosted text-generation
//! endpoint: the per-connection protocol logic, free of any I/O.
//!
//! The crate decides; the program around it reads, writes and calls out.
//! Every function here is a function of its arguments.

pub mod command;
pub mod escape;
pub mod gateway;
pub mod isolation;
pub mod json;
pub mod protocol;
pub mod response;
pub mod session;
pub mod tui;
pub mod wording;
