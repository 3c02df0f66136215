//! Credential protection and signal relay for a trading-automation backend.
//!
//! The crate keeps the secret half of an exchange credential encrypted at
//! rest, turns an inbound trading signal into an order message that carries
//! the decrypted credential, and drives the batch switch that enables or
//! disables strategies as one transaction.  Everything that touches a
//! database, a message bus or a socket is left to the caller: the functions
//! here take plain values and say which action comes next.

pub mod cipher;
pub mod config;
pub mod guards;
pub mod hex_text;
pub mod relay;
pub mod server;
pub mod strategies;
pub mod text;
pub mod toggle;
pub mod types;
pub mod users;
