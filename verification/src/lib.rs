//! The logic of an uptime bot: what a configuration has to look like, when a
//! test counts as failed or recovered, who is told, and what the message says.
//!
//! Everything that talks to the outside (requests, sockets, the messengers) is
//! left to the program around this library.

pub mod bindings;
pub mod config;
pub mod error;
pub mod job;
pub mod laws;
pub mod message;
pub mod promises;
pub mod runner;
pub mod setup;
pub mod template;
pub mod text;
pub mod validate;
pub mod zuse;
