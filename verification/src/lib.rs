//! A minimal bidirectional-upgrade protocol: a server validates an HTTP
//! upgrade request, answers the handshake, and then streams an unbounded,
//! wrapping byte counter over the upgraded connection; a client builds the
//! upgrade request and classifies the server's answer.

pub mod client;
pub mod config;
pub mod frames;
pub mod handshake;
pub mod session;
pub mod keys;
pub mod parse;
