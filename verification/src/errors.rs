//! Error kinds of the per-query protocol and of key generation.

use vstd::prelude::*;

verus! {

/// The typed failures this library reports to its callers.
///
/// - `InvalidData`: the query or response payload is malformed, corrupt, or
///   failed cryptographic verification. The exchange is abandoned; nothing
///   about the failure reason is echoed to the client.
/// - `StaleKey`: the query was encrypted against a configuration that is no
///   longer current. The client should re-fetch the configuration and retry
///   with a freshly encrypted query.
/// - `ODoHConfigError`: the cryptographic library failed to produce the
///   serialized configuration during key generation. Fatal at startup;
///   during scheduled rotation the previous key simply remains current.
#[derive(Clone, Copy, Debug, PartialEq, Eq)]
pub enum DoHError {
    InvalidData,
    StaleKey,
    ODoHConfigError,
}

} // verus!
