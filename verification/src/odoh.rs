//! Per-query protocol state: key material, query decryption, and response
//! encryption.

use vstd::prelude::*;

use crate::crypto::{
    clone_key_pair, configs_wire, decrypt_query_message, encrypt_response_message,
    generate_key_pair, key_pair_identifier, message_key_id, message_wire, pair_identifier,
    parse_query_message, parse_response_plaintext, parsed_query, parsed_query_key_id,
    parsed_response, plaintext_wire, query_decryption, random_response_nonce,
    response_encryption, response_plaintext_parses, serialize_configs, serialize_message,
    serialize_plaintext,
};
use crate::errors::DoHError;

verus! {

/// The server's key material: an asymmetric key pair together with the
/// identifier of its public key and the serialized configuration that
/// advertises that public key to clients.
///
/// All three are populated together at generation time and are immutable
/// afterwards, so no caller ever observes one without the others.
pub struct ODoHPublicKey {
    key: odoh_rs::ObliviousDoHKeyPair,
    key_id: Vec<u8>,
    serialized_configs: Vec<u8>,
}

/// Short-lived state binding one decrypted query to the shared secret
/// needed to encrypt its eventual response. Consumed, by value, by exactly
/// one call to [`ODoHQueryContext::encrypt_response`].
pub struct ODoHQueryContext {
    query: odoh_rs::ObliviousDoHMessagePlaintext,
    secret: [u8; 16],
}

impl ODoHPublicKey {
    /// The identifier of this key's public half, as clients present it.
    pub closed spec fn spec_key_id(&self) -> Seq<u8> {
        self.key_id@
    }

    /// The serialized configuration advertising this key's public half.
    pub closed spec fn spec_config(&self) -> Seq<u8> {
        self.serialized_configs@
    }

    /// The asymmetric key pair this key material holds.
    pub closed spec fn spec_key(&self) -> odoh_rs::ObliviousDoHKeyPair {
        self.key
    }

    /// Key material is always self-consistent: the stored identifier and
    /// the stored configuration are the very derivations of the stored key
    /// pair, so no caller ever observes one without the others.
    #[verifier::type_invariant]
    pub open spec fn wf(self) -> bool {
        &&& configs_wire(self.spec_key()) == Some(self.spec_config())
        &&& pair_identifier(self.spec_key()) == Some(self.spec_key_id())
    }

    /// What decrypting the given bytes under this key returns: the error
    /// taxonomy of the protocol, and on success the plaintext query's wire
    /// form together with the decrypted payload and shared secret that the
    /// returned context retains.
    pub open spec fn spec_decrypt_query(self, encrypted_query: Seq<u8>) -> Result<
        (Seq<u8>, odoh_rs::ObliviousDoHMessagePlaintext, Seq<u8>),
        DoHError,
    > {
        match parsed_query(encrypted_query) {
            None => Err(DoHError::InvalidData),
            Some(message) => if message_key_id(message) != self.spec_key_id() {
                Err(DoHError::StaleKey)
            } else {
                match query_decryption(message, self.spec_key()) {
                    None => Err(DoHError::InvalidData),
                    Some(decrypted) => match plaintext_wire(decrypted.0) {
                        None => Err(DoHError::InvalidData),
                        Some(wire) => Ok((wire, decrypted.0, decrypted.1)),
                    },
                }
            },
        }
    }

    /// Assembles key material around the given key pair: derives the
    /// serialized singleton configuration list and the public-key
    /// identifier, and fails with `ODoHConfigError` exactly where the
    /// cryptographic library cannot produce one of the two.
    fn from_key_pair(key_pair: odoh_rs::ObliviousDoHKeyPair) -> (r: Result<
        ODoHPublicKey,
        DoHError,
    >)
        ensures
            r is Ok <==> (configs_wire(key_pair) is Some && pair_identifier(key_pair) is Some),
            r matches Ok(k) ==> k.spec_key() == key_pair && k.wf(),
            r matches Err(e) ==> e == DoHError::ODoHConfigError,
    {
        let serialized_configs = match serialize_configs(&key_pair) {
            Some(b) => b,
            None => {
                return Err(DoHError::ODoHConfigError);
            },
        };
        let key_id = match key_pair_identifier(&key_pair) {
            Some(id) => id,
            None => {
                return Err(DoHError::ODoHConfigError);
            },
        };
        Ok(ODoHPublicKey { key: key_pair, key_id, serialized_configs })
    }

    /// Generates fresh key material: a new key pair, the identifier of its
    /// public key, and the serialized singleton configuration list
    /// advertising it, populated together so that the returned material is
    /// always self-consistent. Fails with `ODoHConfigError` where the
    /// cryptographic library cannot produce the configuration or the
    /// identifier for the drawn key pair.
    pub fn new() -> (r: Result<ODoHPublicKey, DoHError>)
        ensures
            r matches Ok(k) ==> k.wf(),
            r matches Err(e) ==> e == DoHError::ODoHConfigError,
    {
        ODoHPublicKey::from_key_pair(generate_key_pair())
    }

    /// Hands out the serialized configuration bytes, ready to serve to
    /// clients from a configuration-discovery endpoint.
    pub fn config(self) -> (r: Vec<u8>)
        ensures
            r@ == self.spec_config(),
    {
        self.serialized_configs
    }

    /// The identifier of this key's public half.
    pub fn key_id(&self) -> (r: &Vec<u8>)
        ensures
            r@ == self.spec_key_id(),
    {
        &self.key_id
    }

    /// Decrypts one encrypted query under this key.
    ///
    /// A payload that does not parse as a protocol message is refused as
    /// `InvalidData`. A parsed message whose key identifier differs from
    /// this key's identifier is refused as `StaleKey` — the client encrypted
    /// against a configuration that is no longer current — and never as
    /// `InvalidData`, and is never decrypted. Only a message carrying this
    /// key's own identifier reaches decryption, and any cryptographic
    /// failure there is reported as `InvalidData`; no partial plaintext is
    /// ever returned. The whole outcome is pinned to
    /// [`Self::spec_decrypt_query`]: success is owed exactly where parsing,
    /// the epoch check, decryption and re-serialization all go through, and
    /// then the returned bytes are the decrypted payload's wire form and
    /// the context retains exactly that payload and its shared secret.
    pub fn decrypt_query(self, encrypted_query: Vec<u8>) -> (r: Result<
        (Vec<u8>, ODoHQueryContext),
        DoHError,
    >)
        ensures
            r matches Ok(o) ==> self.spec_decrypt_query(encrypted_query@) == Ok::<
                (Seq<u8>, odoh_rs::ObliviousDoHMessagePlaintext, Seq<u8>),
                DoHError,
            >((o.0@, o.1.spec_query(), o.1.spec_secret())),
            r matches Err(e) ==> self.spec_decrypt_query(encrypted_query@) == Err::<
                (Seq<u8>, odoh_rs::ObliviousDoHMessagePlaintext, Seq<u8>),
                DoHError,
            >(e),
            parsed_query_key_id(encrypted_query@) is None ==> r == Err::<
                (Vec<u8>, ODoHQueryContext),
                DoHError,
            >(DoHError::InvalidData),
            parsed_query_key_id(encrypted_query@) matches Some(kid) && kid != self.spec_key_id()
                ==> r == Err::<(Vec<u8>, ODoHQueryContext), DoHError>(DoHError::StaleKey),
            r matches Err(e) ==> (e == DoHError::InvalidData || e == DoHError::StaleKey),
            r is Ok ==> parsed_query_key_id(encrypted_query@) == Some(self.spec_key_id()),
            r == Err::<(Vec<u8>, ODoHQueryContext), DoHError>(DoHError::StaleKey) ==> (
            parsed_query_key_id(encrypted_query@) is Some && parsed_query_key_id(encrypted_query@)
                != Some(self.spec_key_id())),
            encrypted_query@.len() == 0 ==> r == Err::<
                (Vec<u8>, ODoHQueryContext),
                DoHError,
            >(DoHError::InvalidData),
    {
        let (message, message_key_id) = match parse_query_message(encrypted_query) {
            Some(p) => p,
            None => {
                return Err(DoHError::InvalidData);
            },
        };
        if !bytes_eq(&self.key_id, &message_key_id) {
            return Err(DoHError::StaleKey);
        }
        let (plaintext, secret) = match decrypt_query_message(&message, &self.key) {
            Some(p) => p,
            None => {
                return Err(DoHError::InvalidData);
            },
        };
        let query_bytes = match serialize_plaintext(&plaintext) {
            Some(b) => b,
            None => {
                return Err(DoHError::InvalidData);
            },
        };
        Ok((query_bytes, ODoHQueryContext { query: plaintext, secret }))
    }
}

impl Clone for ODoHPublicKey {
    /// Copies the key material field for field; the copy holds the same
    /// key pair and advertises the same identifier and the same serialized
    /// configuration.
    fn clone(&self) -> (r: Self)
        ensures
            r.spec_key() == self.spec_key(),
            r.spec_key_id() == self.spec_key_id(),
            r.spec_config() == self.spec_config(),
    {
        proof {
            use_type_invariant(self);
        }
        ODoHPublicKey {
            key: clone_key_pair(&self.key),
            key_id: clone_bytes(&self.key_id),
            serialized_configs: clone_bytes(&self.serialized_configs),
        }
    }
}

impl ODoHQueryContext {
    /// The retained decrypted query this context authenticates against.
    pub closed spec fn spec_query(&self) -> odoh_rs::ObliviousDoHMessagePlaintext {
        self.query
    }

    /// The per-exchange shared secret this context encrypts under.
    pub closed spec fn spec_secret(&self) -> Seq<u8> {
        self.secret@
    }

    /// Every context retains a query payload that decryption produced and
    /// serialization accepted, so the payload's wire form exists.
    #[verifier::type_invariant]
    closed spec fn wf(self) -> bool {
        plaintext_wire(self.query) is Some
    }

    /// What encrypting the given response bytes under this context with the
    /// given nonce yields: the wire form of the sealed response, or `None`
    /// where the bytes do not parse or sealing or serialization fails.
    pub open spec fn spec_encrypt_response(
        self,
        response_body: Seq<u8>,
        response_nonce: Seq<u8>,
    ) -> Option<Seq<u8>> {
        match parsed_response(response_body) {
            None => None,
            Some(response) => match response_encryption(
                self.spec_query(),
                response,
                self.spec_secret(),
                response_nonce,
            ) {
                None => None,
                Some(message) => message_wire(message),
            },
        }
    }

    /// Encrypts one plaintext response under this context's shared secret,
    /// bound to the original query and a freshly drawn random nonce.
    ///
    /// A payload that does not parse as a plaintext protocol payload is
    /// refused as `InvalidData`, as is any encryption or serialization
    /// failure; every failure of this call is `InvalidData`. Success is
    /// owed for every parsable payload whose sealed form fits the 16-bit
    /// wire length, and the returned bytes are exactly the sealed wire
    /// form of the payload under this context and the drawn nonce. The
    /// context is consumed whatever the outcome.
    pub fn encrypt_response(self, response_body: Vec<u8>) -> (r: Result<Vec<u8>, DoHError>)
        ensures
            !response_plaintext_parses(response_body@) ==> r == Err::<Vec<u8>, DoHError>(
                DoHError::InvalidData,
            ),
            r matches Err(e) ==> e == DoHError::InvalidData,
            r is Ok ==> response_plaintext_parses(response_body@),
            response_body@.len() == 0 ==> r == Err::<Vec<u8>, DoHError>(DoHError::InvalidData),
            (response_plaintext_parses(response_body@) && response_body@.len() + 16 <= 65535)
                ==> r is Ok,
            r matches Ok(b) ==> (exists|nonce: Seq<u8>|
                nonce.len() == 16 && #[trigger] self.spec_encrypt_response(response_body@, nonce)
                    == Some(b@)),
    {
        proof {
            use_type_invariant(&self);
        }
        let response_nonce = random_response_nonce();
        let response = match parse_response_plaintext(response_body) {
            Some(p) => p,
            None => {
                return Err(DoHError::InvalidData);
            },
        };
        let encrypted = match encrypt_response_message(
            &self.query,
            &response,
            self.secret,
            response_nonce,
        ) {
            Some(m) => m,
            None => {
                return Err(DoHError::InvalidData);
            },
        };
        match serialize_message(&encrypted) {
            Some(b) => {
                proof {
                    assert(self.spec_encrypt_response(response_body@, response_nonce@) == Some(
                        b@,
                    ));
                }
                Ok(b)
            },
            None => Err(DoHError::InvalidData),
        }
    }
}

/// Byte-for-byte equality of two byte vectors.
fn bytes_eq(a: &Vec<u8>, b: &Vec<u8>) -> (r: bool)
    ensures
        r <==> a@ == b@,
{
    if a.len() != b.len() {
        return false;
    }
    let mut i: usize = 0;
    while i < a.len()
        invariant
            i <= a@.len(),
            a@.len() == b@.len(),
            forall|j: int| 0 <= j < i ==> a@[j] == b@[j],
        decreases a@.len() - i,
    {
        if a[i] != b[i] {
            return false;
        }
        i += 1;
    }
    proof {
        assert(a@ =~= b@);
    }
    true
}

/// Element-for-element copy of a byte vector.
fn clone_bytes(v: &Vec<u8>) -> (r: Vec<u8>)
    ensures
        r@ == v@,
{
    let mut out: Vec<u8> = Vec::new();
    let mut i: usize = 0;
    while i < v.len()
        invariant
            i <= v@.len(),
            out@ == v@.subrange(0, i as int),
        decreases v@.len() - i,
    {
        out.push(v[i]);
        i += 1;
    }
    proof {
        assert(out@ =~= v@);
    }
    out
}

} // verus!
