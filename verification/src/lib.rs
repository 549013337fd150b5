//! A minimal authenticated content service: users register and log in with an
//! email and password, receive a signed, time-bound token, and use it to
//! create and read short text posts held in per-user partitions.
//!
//! The library holds the verified core: credential storage with uniqueness
//! invariants, password hashing and verification, token issuance and
//! validation with an exact expiry check, the auth gate, and the per-user
//! post store. HTTP wiring and durable storage sit outside it.

pub mod auth_gate;
pub mod errors;
pub mod hashing;
mod ids;
pub mod post_store;
pub mod service;
pub mod settings;
pub mod token;
pub mod user_store;
