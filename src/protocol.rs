//! The wire codec: control bytes, frames, functions and commands.

pub mod bits;
pub mod command;
pub mod message;
pub mod serialization;
