//! Process-wide holder of the current key material.
//!
//! Any number of concurrent query handlers read the current key through a
//! lock-free atomic slot; a single periodic task replaces the slot's
//! contents with freshly generated material. Readers always observe either
//! the whole pre-rotation value or the whole post-rotation value — the slot
//! publishes a shared pointer atomically, never a partially updated key. A
//! handler that already holds a key completes its exchange against it even
//! after a swap; a handler that reads after the swap sees only the new key.

use vstd::prelude::*;

use std::sync::Arc;

use crate::errors::DoHError;
use crate::odoh::ODoHPublicKey;

verus! {

/// An atomically swappable shared-ownership slot holding the current key.
///
/// The slot's contents change over time under concurrent readers, which is
/// why nothing here models what the slot holds: every key that enters it is
/// built by [`ODoHPublicKey::new`], and every read hands back one whole such
/// key.
#[verifier::external_body]
pub(crate) struct KeySlot {
    inner: Arc<arc_swap::ArcSwap<ODoHPublicKey>>,
}

/// Relies on `arc_swap::ArcSwap::from_pointee` and `Arc::new`: builds a
/// fresh slot holding the given key.
#[verifier::external_body]
fn key_slot_new(key: ODoHPublicKey) -> KeySlot {
    KeySlot { inner: Arc::new(arc_swap::ArcSwap::from_pointee(key)) }
}

/// Relies on `arc_swap::ArcSwapAny::load_full`: an atomic, lock-free,
/// wait-free read of the slot, returning shared ownership of the whole key
/// most recently stored.
#[verifier::external_body]
fn key_slot_load(slot: &KeySlot) -> Arc<ODoHPublicKey> {
    slot.inner.load_full()
}

/// Relies on `arc_swap::ArcSwapAny::store`: atomically replaces the slot's
/// contents; readers that already hold the previous key keep it alive until
/// they drop it.
#[verifier::external_body]
fn key_slot_store(slot: &KeySlot, key: ODoHPublicKey) {
    slot.inner.store(Arc::new(key));
}

impl Clone for KeySlot {
    /// Relies on `Arc::clone`: the copy is a handle to the same slot.
    #[verifier::external_body]
    fn clone(&self) -> Self {
        KeySlot { inner: Arc::clone(&self.inner) }
    }
}

/// Handle to the process-wide current key. Cheap to clone; every clone
/// reads and writes the same underlying slot.
pub struct ODoHRotator {
    key: KeySlot,
}

impl ODoHRotator {
    /// Initializes the slot with freshly generated key material. Failure to
    /// generate here leaves the process without any key to serve, so the
    /// caller should treat it as fatal.
    pub fn new() -> (r: Result<ODoHRotator, DoHError>)
        ensures
            r matches Err(e) ==> e == DoHError::ODoHConfigError,
    {
        match ODoHPublicKey::new() {
            Ok(key) => Ok(ODoHRotator { key: key_slot_new(key) }),
            Err(e) => Err(e),
        }
    }

    /// A lock-free read of the current key; never blocks the rotation task
    /// or other readers, and always returns one whole, self-consistent key:
    /// its advertised configuration and identifier are the derivations of
    /// its own key pair.
    pub fn current_key(&self) -> (r: Arc<ODoHPublicKey>)
        ensures
            (*r).wf(),
    {
        let key = key_slot_load(&self.key);
        let key_ref: &ODoHPublicKey = &key;
        proof {
            use_type_invariant(key_ref);
        }
        key
    }

    /// One rotation tick: generates fresh key material and atomically
    /// publishes it as current. Where generation fails, the previous key
    /// remains current and the error is returned for the caller to log —
    /// rotation failure is never fatal.
    pub fn rotate_once(&self) -> (r: Result<(), DoHError>)
        ensures
            r matches Err(e) ==> e == DoHError::ODoHConfigError,
    {
        match ODoHPublicKey::new() {
            Ok(key) => {
                key_slot_store(&self.key, key);
                Ok(())
            },
            Err(e) => Err(e),
        }
    }
}

impl Clone for ODoHRotator {
    /// The copy is a handle to the same slot as the original.
    fn clone(&self) -> Self {
        ODoHRotator { key: self.key.clone() }
    }
}

} // verus!
