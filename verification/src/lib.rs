//! Session keys, capability grants and sign-in messages for a
//! capability-based authentication client.
//!
//! A [`manager::SessionManager`] owns a store of named session keys and an
//! accumulator of capability grants, and builds the sign-in message that
//! delegates those grants to a session key. Every function states what it
//! returns or changes over mathematical models of the data it works on.
pub mod capability;
pub mod encoding;
pub mod error;
pub mod key_exchange;
pub mod key_material;
pub mod laws;
pub mod manager;
pub mod message;
pub mod recap;
pub mod signing;
pub mod store;
pub mod syntax;
pub mod text;
