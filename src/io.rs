//! Coordination of requests and replies between the caller and the reader.

pub mod controller;
