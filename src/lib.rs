//! Host-side driver core for a home-automation RF controller on a serial link:
//! the wire codec for control bytes and parity-protected frames, and the
//! decision core that matches replies to requests.

pub mod common;
pub mod protocol;
pub mod io;
