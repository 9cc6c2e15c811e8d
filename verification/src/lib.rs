//! Server side of an oblivious encrypted-query protocol for DNS resolution.
//!
//! A client fetches the server's advertised configuration, encrypts a query
//! against it, and sends the ciphertext through a relay. This library holds
//! the server's per-query protocol state — decrypting a query, binding it to
//! the secret needed for exactly one response, and encrypting that response —
//! together with the key-rotation mechanism that keeps a process-wide current
//! key available to many concurrent query handlers.
//!
//! The hybrid public-key encryption primitives themselves are supplied by the
//! `odoh_rs` crate and are reached only through the trusted boundary in
//! [`crypto`].

pub mod crypto;
pub mod errors;
pub mod odoh;
pub mod rotator;
