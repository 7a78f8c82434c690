//! A small subscription-relay library: it classifies the responses of a
//! two-hop upstream exchange (login, then token-authorized lookup), filters
//! the headers that a relay request may forward, and maps every failure to a
//! caller-visible error with an HTTP status.

pub mod config;
pub mod digits;
pub mod envelope;
pub mod error;
pub mod flow;
pub mod headers;
pub mod laws;
pub mod service;
