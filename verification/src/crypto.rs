//! Boundary to the `odoh_rs` cryptographic library.
//!
//! The hybrid public-key encryption scheme — key generation, message parsing
//! and serialization, and authenticated encryption and decryption — is
//! supplied by `odoh_rs` and is reached only through the items in this
//! module. Each deterministic result is given a name, each wrapper's
//! contract states no more than the `odoh_rs` sources show, and everything
//! else the library proves on top of these contracts.

use vstd::prelude::*;

use odoh_rs::{Deserialize, Serialize};

verus! {

#[verifier::external_type_specification]
#[verifier::external_body]
pub struct ExObliviousDoHKeyPair(odoh_rs::ObliviousDoHKeyPair);

#[verifier::external_type_specification]
#[verifier::external_body]
pub struct ExObliviousDoHMessage(odoh_rs::ObliviousDoHMessage);

#[verifier::external_type_specification]
#[verifier::external_body]
pub struct ExObliviousDoHMessagePlaintext(odoh_rs::ObliviousDoHMessagePlaintext);

/// The protocol message that the given bytes deserialize to, or `None`
/// where they do not deserialize to one. Parsing reads nothing but the
/// bytes.
pub uninterp spec fn parsed_query(encrypted_query: Seq<u8>) -> Option<odoh_rs::ObliviousDoHMessage>;

/// The key identifier carried by a protocol message: a field read, a
/// function of the message alone.
pub uninterp spec fn message_key_id(message: odoh_rs::ObliviousDoHMessage) -> Seq<u8>;

/// The decapsulated-and-decrypted payload of a query message under a key
/// pair — the plaintext and the per-exchange shared secret — or `None` on
/// any cryptographic failure. Receiver-side decryption draws no
/// randomness, so this is a function of the message and the key pair
/// alone.
pub uninterp spec fn query_decryption(
    message: odoh_rs::ObliviousDoHMessage,
    key_pair: odoh_rs::ObliviousDoHKeyPair,
) -> Option<(odoh_rs::ObliviousDoHMessagePlaintext, Seq<u8>)>;

/// The wire form of a plaintext protocol payload, or `None` where it
/// cannot be serialized.
pub uninterp spec fn plaintext_wire(plaintext: odoh_rs::ObliviousDoHMessagePlaintext) -> Option<
    Seq<u8>,
>;

/// The plaintext protocol payload that the given bytes deserialize to, or
/// `None` where they do not deserialize to one. Parsing reads nothing but
/// the bytes.
pub uninterp spec fn parsed_response(response_body: Seq<u8>) -> Option<
    odoh_rs::ObliviousDoHMessagePlaintext,
>;

/// The encrypted response message built from a query plaintext, a response
/// plaintext, the shared secret and a response nonce, or `None` on any
/// cryptographic failure. The nonce is an explicit argument, so this is a
/// function of the four inputs alone.
pub uninterp spec fn response_encryption(
    query: odoh_rs::ObliviousDoHMessagePlaintext,
    response: odoh_rs::ObliviousDoHMessagePlaintext,
    secret: Seq<u8>,
    response_nonce: Seq<u8>,
) -> Option<odoh_rs::ObliviousDoHMessage>;

/// The wire form of an encrypted protocol message, or `None` where it
/// cannot be serialized.
pub uninterp spec fn message_wire(message: odoh_rs::ObliviousDoHMessage) -> Option<Seq<u8>>;

/// The wire form of the singleton advertised-configuration list derived
/// from a key pair, or `None` where the library cannot serialize it — a
/// function of the key pair alone.
pub uninterp spec fn configs_wire(key_pair: odoh_rs::ObliviousDoHKeyPair) -> Option<Seq<u8>>;

/// The short identifier derived from a key pair's public half, or `None`
/// where the library cannot derive it — a function of the key pair alone.
pub uninterp spec fn pair_identifier(key_pair: odoh_rs::ObliviousDoHKeyPair) -> Option<Seq<u8>>;

/// The key identifier of the message the bytes parse to, where they parse.
pub open spec fn parsed_query_key_id(encrypted_query: Seq<u8>) -> Option<Seq<u8>> {
    match parsed_query(encrypted_query) {
        Some(message) => Some(message_key_id(message)),
        None => None,
    }
}

/// Whether the given bytes deserialize to a well-formed plaintext protocol
/// payload.
pub open spec fn response_plaintext_parses(response_body: Seq<u8>) -> bool {
    parsed_response(response_body) is Some
}

/// Relies on `odoh_rs::ObliviousDoHMessage::deserialize` and `key_id`:
/// parsing is a function of the input bytes alone; the second component of
/// the returned pair is the parsed message's key-identifier field; an
/// empty input never parses (the parser reports short input before reading
/// any field).
#[verifier::external_body]
pub(crate) fn parse_query_message(encrypted_query: Vec<u8>) -> (r: Option<(
    odoh_rs::ObliviousDoHMessage,
    Vec<u8>,
)>)
    ensures
        r is Some <==> parsed_query(encrypted_query@) is Some,
        r matches Some(p) ==> (parsed_query(encrypted_query@) == Some(p.0) && p.1@
            == message_key_id(p.0)),
        encrypted_query@.len() == 0 ==> r is None,
{
    let mut buf = bytes::Bytes::from(encrypted_query);
    match odoh_rs::ObliviousDoHMessage::deserialize(&mut buf) {
        Ok(msg) => {
            let key_id = msg.key_id().to_vec();
            Some((msg, key_id))
        }
        Err(_) => None,
    }
}

/// Relies on `odoh_rs::ObliviousDoHKeyPair::new`: generates a fresh key pair
/// from the thread-local secure random source. Nothing is assumed of the
/// generated value.
#[verifier::external_body]
pub(crate) fn generate_key_pair() -> odoh_rs::ObliviousDoHKeyPair {
    odoh_rs::ObliviousDoHKeyPair::new(&mut rand::rng())
}

/// Relies on `odoh_rs::ObliviousDoHConfigContents::identifier`: derives the
/// short key identifier that clients use to indicate which server key a
/// message was encrypted against — an HKDF of the serialized public half,
/// a function of the key pair alone.
#[verifier::external_body]
pub(crate) fn key_pair_identifier(key_pair: &odoh_rs::ObliviousDoHKeyPair) -> (r: Option<Vec<u8>>)
    ensures
        r is Some <==> pair_identifier(*key_pair) is Some,
        r matches Some(id) ==> pair_identifier(*key_pair) == Some(id@),
{
    key_pair.public().identifier().ok()
}

/// Relies on `odoh_rs::ObliviousDoHConfigs::serialize` (and the `From`
/// conversions building its argument): serializes the singleton list of
/// advertised configurations for this key pair — a function of the key
/// pair alone.
#[verifier::external_body]
pub(crate) fn serialize_configs(key_pair: &odoh_rs::ObliviousDoHKeyPair) -> (r: Option<Vec<u8>>)
    ensures
        r is Some <==> configs_wire(*key_pair) is Some,
        r matches Some(b) ==> configs_wire(*key_pair) == Some(b@),
{
    let config = odoh_rs::ObliviousDoHConfig::from(key_pair.public().clone());
    let configs = odoh_rs::ObliviousDoHConfigs::from(vec![config]);
    let mut buf = Vec::new();
    match configs.serialize(&mut buf) {
        Ok(()) => Some(buf),
        Err(_) => None,
    }
}

/// Relies on `Clone for odoh_rs::ObliviousDoHKeyPair`, which copies the key
/// pair field for field, so the copy equals the original.
#[verifier::external_body]
pub(crate) fn clone_key_pair(key_pair: &odoh_rs::ObliviousDoHKeyPair) -> (r:
    odoh_rs::ObliviousDoHKeyPair)
    ensures
        r == *key_pair,
{
    key_pair.clone()
}

/// Relies on `odoh_rs::decrypt_query`: decapsulates and decrypts a parsed
/// query message under the key pair, returning the plaintext payload and
/// the per-exchange shared secret, or `None` on any cryptographic failure.
/// The receiver side draws no randomness, so the outcome is the named
/// function of the two arguments.
#[verifier::external_body]
pub(crate) fn decrypt_query_message(
    message: &odoh_rs::ObliviousDoHMessage,
    key_pair: &odoh_rs::ObliviousDoHKeyPair,
) -> (r: Option<(odoh_rs::ObliviousDoHMessagePlaintext, [u8; 16])>)
    ensures
        r is Some <==> query_decryption(*message, *key_pair) is Some,
        r matches Some(p) ==> query_decryption(*message, *key_pair) == Some((p.0, p.1@)),
{
    odoh_rs::decrypt_query(message, key_pair).ok()
}

/// Relies on `odoh_rs::ObliviousDoHMessagePlaintext::serialize`: writes the
/// plaintext payload back to its wire form, a function of the payload
/// alone, or `None` where the payload cannot be serialized.
#[verifier::external_body]
pub(crate) fn serialize_plaintext(plaintext: &odoh_rs::ObliviousDoHMessagePlaintext) -> (r: Option<
    Vec<u8>,
>)
    ensures
        r is Some <==> plaintext_wire(*plaintext) is Some,
        r matches Some(b) ==> plaintext_wire(*plaintext) == Some(b@),
{
    let mut buf = Vec::new();
    match plaintext.serialize(&mut buf) {
        Ok(()) => Some(buf),
        Err(_) => None,
    }
}

/// Relies on `odoh_rs::ObliviousDoHMessagePlaintext::deserialize`: parsing
/// is a function of the input bytes alone; an empty input never parses
/// (the parser reports short input on the first length prefix). A parsed
/// payload serializes back: the parser enforces zero padding and reads
/// both fields through 16-bit length prefixes, and serialization writes
/// exactly the bytes the parser consumed, never more than the input held.
#[verifier::external_body]
pub(crate) fn parse_response_plaintext(response_body: Vec<u8>) -> (r: Option<
    odoh_rs::ObliviousDoHMessagePlaintext,
>)
    ensures
        r is Some <==> parsed_response(response_body@) is Some,
        r matches Some(p) ==> parsed_response(response_body@) == Some(p),
        r matches Some(p) ==> (plaintext_wire(p) matches Some(w) && w.len()
            <= response_body@.len()),
        response_body@.len() == 0 ==> r is None,
{
    let mut buf = bytes::Bytes::from(response_body);
    odoh_rs::ObliviousDoHMessagePlaintext::deserialize(&mut buf).ok()
}

/// Relies on rand's thread-local secure generator: draws a full-entropy
/// response nonce. Nothing is assumed of the drawn value.
#[verifier::external_body]
pub(crate) fn random_response_nonce() -> [u8; 16] {
    rand::random::<[u8; 16]>()
}

/// Relies on `odoh_rs::encrypt_response`: encrypts the response payload
/// under the shared secret, bound to the original query plaintext and the
/// response nonce — a function of the four arguments, since the nonce is
/// passed in. The call succeeds whenever both payloads serialize: key and
/// nonce derivation expand to fixed small sizes, the nonce's length is
/// fixed, and the cipher refuses only buffers far beyond the 16-bit wire
/// bound. Its output carries the nonce as identifier and the sealed
/// payload, 16 tag bytes longer than the response's wire form, so it
/// serializes whenever that total fits the 16-bit length prefix.
#[verifier::external_body]
pub(crate) fn encrypt_response_message(
    query: &odoh_rs::ObliviousDoHMessagePlaintext,
    response: &odoh_rs::ObliviousDoHMessagePlaintext,
    secret: [u8; 16],
    response_nonce: [u8; 16],
) -> (r: Option<odoh_rs::ObliviousDoHMessage>)
    ensures
        r is Some <==> response_encryption(*query, *response, secret@, response_nonce@) is Some,
        r matches Some(m) ==> response_encryption(*query, *response, secret@, response_nonce@)
            == Some(m),
        (plaintext_wire(*query) is Some && plaintext_wire(*response) is Some) ==> r is Some,
        r matches Some(m) ==> (plaintext_wire(*response) matches Some(w) && w.len() + 16 <= 65535
            ==> message_wire(m) is Some),
{
    odoh_rs::encrypt_response(query, response, secret, response_nonce).ok()
}

/// Relies on `odoh_rs::ObliviousDoHMessage::serialize`: writes an encrypted
/// message to its wire form, a function of the message alone, or `None`
/// where it cannot be serialized.
#[verifier::external_body]
pub(crate) fn serialize_message(message: &odoh_rs::ObliviousDoHMessage) -> (r: Option<Vec<u8>>)
    ensures
        r is Some <==> message_wire(*message) is Some,
        r matches Some(b) ==> message_wire(*message) == Some(b@),
{
    let mut buf = Vec::new();
    match message.serialize(&mut buf) {
        Ok(()) => Some(buf),
        Err(_) => None,
    }
}

} // verus!
