//! Exercises the per-query protocol: configuration publication, query
//! decryption, response encryption, and the error kinds. The client side of
//! each exchange is played by `odoh_rs` directly.

use bytes::Bytes;
use libdoh::errors::DoHError;
use libdoh::odoh::ODoHPublicKey;
use odoh_rs::{
    Deserialize, ObliviousDoHConfigContents, ObliviousDoHConfigs, ObliviousDoHMessage,
    ObliviousDoHMessagePlaintext, OdohSecret, Serialize,
};

/// Parses served configuration bytes as a client would and returns the
/// first supported configuration's contents.
fn client_parse_config(config_bytes: Vec<u8>) -> ObliviousDoHConfigContents {
    let mut buf = Bytes::from(config_bytes);
    let configs = ObliviousDoHConfigs::deserialize(&mut buf).unwrap();
    configs.supported().into_iter().next().unwrap().into()
}

/// Serializes a plaintext protocol payload to its wire form.
fn compose_plaintext(plain: &ObliviousDoHMessagePlaintext) -> Vec<u8> {
    let mut buf = Vec::new();
    plain.serialize(&mut buf).unwrap();
    buf
}

/// Encrypts a DNS message as a client, returning the wire-form query and
/// the client's secret for decrypting the response.
fn client_encrypt_query(
    dns_msg: &[u8],
    contents: &ObliviousDoHConfigContents,
) -> (Vec<u8>, ObliviousDoHMessagePlaintext, OdohSecret) {
    let plain = ObliviousDoHMessagePlaintext::new(dns_msg, 0);
    let (message, client_secret) =
        odoh_rs::encrypt_query(&plain, contents, &mut rand::rng()).unwrap();
    let mut buf = Vec::new();
    message.serialize(&mut buf).unwrap();
    (buf, plain, client_secret)
}

#[test]
fn config_identifier_matches_key() {
    let key = ODoHPublicKey::new().unwrap();
    let key_id = key.key_id().clone();
    let contents = client_parse_config(key.config());
    assert_eq!(contents.identifier().unwrap(), key_id);
}

#[test]
fn query_response_round_trip() {
    let key = ODoHPublicKey::new().unwrap();
    let contents = client_parse_config(key.clone().config());

    let (query_wire, query_plain, client_secret) = client_encrypt_query(b"A", &contents);

    let (query_bytes, context) = key.decrypt_query(query_wire).unwrap();
    assert_eq!(query_bytes, compose_plaintext(&query_plain));
    let mut query_buf = Bytes::from(query_bytes);
    let decrypted_query = ObliviousDoHMessagePlaintext::deserialize(&mut query_buf).unwrap();
    assert_eq!(decrypted_query.into_msg().as_ref(), b"A");

    let response_plain = ObliviousDoHMessagePlaintext::new(b"B", 0);
    let response_wire = context
        .encrypt_response(compose_plaintext(&response_plain))
        .unwrap();

    let mut response_buf = Bytes::from(response_wire);
    let response_message = ObliviousDoHMessage::deserialize(&mut response_buf).unwrap();
    let response_decrypted =
        odoh_rs::decrypt_response(&query_plain, &response_message, client_secret).unwrap();
    assert_eq!(response_decrypted.into_msg().as_ref(), b"B");
}

#[test]
fn stale_key_after_key_change() {
    let old_key = ODoHPublicKey::new().unwrap();
    let new_key = ODoHPublicKey::new().unwrap();
    let old_contents = client_parse_config(old_key.config());

    let (query_wire, _, _) = client_encrypt_query(b"stale", &old_contents);

    let result = new_key.decrypt_query(query_wire);
    assert!(matches!(result, Err(DoHError::StaleKey)));
}

#[test]
fn invalid_message_empty() {
    let key = ODoHPublicKey::new().unwrap();
    let result = key.decrypt_query(Vec::new());
    assert!(matches!(result, Err(DoHError::InvalidData)));
}

#[test]
fn invalid_message_truncated() {
    let key = ODoHPublicKey::new().unwrap();
    let contents = client_parse_config(key.clone().config());
    let (query_wire, _, _) = client_encrypt_query(b"truncated", &contents);

    let truncated = query_wire[..query_wire.len() / 2].to_vec();
    let result = key.decrypt_query(truncated);
    assert!(matches!(result, Err(DoHError::InvalidData)));
}

#[test]
fn invalid_message_tampered() {
    let key = ODoHPublicKey::new().unwrap();
    let contents = client_parse_config(key.clone().config());
    let (mut query_wire, _, _) = client_encrypt_query(b"tampered", &contents);

    let last = query_wire.len() - 1;
    query_wire[last] ^= 0xff;
    let result = key.decrypt_query(query_wire);
    assert!(matches!(result, Err(DoHError::InvalidData)));
}

#[test]
fn invalid_response_body() {
    let key = ODoHPublicKey::new().unwrap();
    let contents = client_parse_config(key.clone().config());
    let (query_wire, _, _) = client_encrypt_query(b"Q", &contents);

    let (_, context) = key.decrypt_query(query_wire).unwrap();
    let result = context.encrypt_response(Vec::new());
    assert!(matches!(result, Err(DoHError::InvalidData)));
}

#[test]
fn response_nonce_uniqueness() {
    let key = ODoHPublicKey::new().unwrap();
    let contents = client_parse_config(key.clone().config());
    let (query_wire, _, _) = client_encrypt_query(b"Q", &contents);

    let (_, context_one) = key.clone().decrypt_query(query_wire.clone()).unwrap();
    let (_, context_two) = key.decrypt_query(query_wire).unwrap();

    let response_plain = ObliviousDoHMessagePlaintext::new(b"R", 0);
    let body = compose_plaintext(&response_plain);
    let encrypted_one = context_one.encrypt_response(body.clone()).unwrap();
    let encrypted_two = context_two.encrypt_response(body).unwrap();
    assert_ne!(encrypted_one, encrypted_two);
}
