//! The options that a session is started with.

pub mod parser;
