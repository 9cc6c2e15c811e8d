//! Exercises the key rotator: lock-free reads, rotation ticks, and the
//! single-epoch behaviour that refuses queries encrypted against a key that
//! is no longer current.

use bytes::Bytes;
use libdoh::errors::DoHError;
use libdoh::rotator::ODoHRotator;
use odoh_rs::{
    Deserialize, ObliviousDoHConfigContents, ObliviousDoHConfigs, ObliviousDoHMessagePlaintext,
    Serialize,
};

fn parse_config(config_bytes: Vec<u8>) -> ObliviousDoHConfigContents {
    let mut buf = Bytes::from(config_bytes);
    let configs = ObliviousDoHConfigs::deserialize(&mut buf).unwrap();
    configs.supported().into_iter().next().unwrap().into()
}

fn encrypt_against(dns_msg: &[u8], contents: &ObliviousDoHConfigContents) -> Vec<u8> {
    let plain = ObliviousDoHMessagePlaintext::new(dns_msg, 0);
    let (message, _) = odoh_rs::encrypt_query(&plain, contents, &mut rand::rng()).unwrap();
    let mut buf = Vec::new();
    message.serialize(&mut buf).unwrap();
    buf
}

#[test]
fn rotator_serves_current_key() {
    let rotator = ODoHRotator::new().unwrap();
    let contents = parse_config(rotator.current_key().as_ref().clone().config());

    let query_wire = encrypt_against(b"A", &contents);
    let key = rotator.current_key().as_ref().clone();
    let (query_bytes, _) = key.decrypt_query(query_wire).unwrap();

    let mut buf = Bytes::from(query_bytes);
    let plain = ObliviousDoHMessagePlaintext::deserialize(&mut buf).unwrap();
    assert_eq!(plain.into_msg().as_ref(), b"A");
}

#[test]
fn rotation_tick_invalidates_old_config() {
    let rotator = ODoHRotator::new().unwrap();
    let old_contents = parse_config(rotator.current_key().as_ref().clone().config());

    rotator.rotate_once().unwrap();

    let query_wire = encrypt_against(b"late", &old_contents);
    let key = rotator.current_key().as_ref().clone();
    let result = key.decrypt_query(query_wire);
    assert!(matches!(result, Err(DoHError::StaleKey)));
}

#[test]
fn rotation_tick_serves_new_key() {
    let rotator = ODoHRotator::new().unwrap();
    let old_id = rotator.current_key().key_id().clone();

    rotator.rotate_once().unwrap();

    let new_contents = parse_config(rotator.current_key().as_ref().clone().config());
    assert_ne!(rotator.current_key().key_id().clone(), old_id);

    let query_wire = encrypt_against(b"fresh", &new_contents);
    let key = rotator.current_key().as_ref().clone();
    assert!(key.decrypt_query(query_wire).is_ok());
}

#[test]
fn concurrent_readers_observe_whole_keys() {
    let rotator = ODoHRotator::new().unwrap();
    let runtime = tokio::runtime::Builder::new_multi_thread()
        .worker_threads(4)
        .enable_all()
        .build()
        .unwrap();

    let read_ids = |n: usize| -> Vec<(Vec<u8>, Vec<u8>)> {
        let handles: Vec<_> = (0..n)
            .map(|_| {
                let reader = rotator.clone();
                runtime.spawn(async move {
                    let key = reader.current_key();
                    (key.key_id().clone(), key.as_ref().clone().config())
                })
            })
            .collect();
        handles
            .into_iter()
            .map(|h| runtime.block_on(h).unwrap())
            .collect()
    };

    let before = read_ids(8);
    let old_id = rotator.current_key().key_id().clone();
    rotator.rotate_once().unwrap();
    let after = read_ids(8);
    let new_id = rotator.current_key().key_id().clone();

    assert_ne!(old_id, new_id);
    for (id, config) in &before {
        assert_eq!(id, &old_id);
        // Self-consistency: the advertised configuration belongs to the very
        // key pair whose identifier was read alongside it.
        assert_eq!(&parse_config(config.clone()).identifier().unwrap(), id);
    }
    for (id, config) in &after {
        assert_eq!(id, &new_id);
        assert_eq!(&parse_config(config.clone()).identifier().unwrap(), id);
    }
}
