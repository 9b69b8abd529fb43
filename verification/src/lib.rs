//! A real-time channel-filtered message relay.
//!
//! Clients open a persistent bidirectional connection, authenticate with a
//! signed token, optionally subscribe to a named channel (or all, or none),
//! and receive only the messages published to channels they subscribed to.
//! The broadcast core fans every published envelope out to every live
//! subscriber; a per-connection filter decides which envelopes are forwarded.

pub mod bus;
pub mod database;
pub mod filter;
pub mod login;
pub mod server;
pub mod session;
pub mod socket_server;
pub mod storage;
pub mod token;
pub mod user;
pub mod wire;
