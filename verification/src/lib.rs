//! A small verified library around a thread-per-connection TCP echo service,
//! together with the helper modules that grew up beside it: array-modification
//! exercises, type tagging, a logger decorator, and configuration parsing.
//!
//! All byte-level and decision logic lives here with contracts; the thin I/O
//! shell (sockets, environment, files) stays outside the verified core and
//! drives these functions with plain values.

pub mod arrays;
pub mod client;
pub mod config;
pub mod echo;
pub mod logging;
pub mod text;
pub mod typetags;
