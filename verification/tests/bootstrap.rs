use rgb_lightning_node::bootstrap::{
    async_payments_root_seed_bytes, derive_async_payments_compat_seed_from_bootstrap,
    validate_bootstrap_ldk_auxiliary_keys, BootstrapData, RlnSignerError, SignerIdentity,
};

fn fake_bootstrap(async_hex: String) -> BootstrapData {
    BootstrapData {
        identity: SignerIdentity {
            node_id: "02".repeat(33),
            account_xpub_vanilla: "xv".to_string(),
            account_xpub_colored: "xc".to_string(),
            master_fingerprint: "deadbeef".to_string(),
        },
        protocol_version: "1".to_string(),
        api_level: 1,
        ldk_inbound_payment_key_hex: "ab".repeat(32),
        ldk_peer_storage_key_hex: "cd".repeat(32),
        ldk_receive_auth_key_hex: "ef".repeat(32),
        async_payments_root_seed_hex: async_hex,
    }
}

fn protocol_message(r: Result<(), RlnSignerError>) -> String {
    match r {
        Err(RlnSignerError::Protocol(m)) => m,
        Err(_) => panic!("not a protocol error"),
        Ok(()) => panic!("expected an error"),
    }
}

#[test]
fn empty_async_seed_uses_compat_derivation() {
    let b = fake_bootstrap(String::new());
    validate_bootstrap_ldk_auxiliary_keys(&b).ok().expect("valid");
    let seed = async_payments_root_seed_bytes(&b).ok().expect("seed");
    assert_eq!(seed, derive_async_payments_compat_seed_from_bootstrap(&b));
}

#[test]
fn nonempty_async_seed_is_host_bytes() {
    let b = fake_bootstrap("07".repeat(32));
    validate_bootstrap_ldk_auxiliary_keys(&b).ok().expect("valid");
    let seed = async_payments_root_seed_bytes(&b).ok().expect("seed");
    assert_eq!(seed, [7u8; 32]);
}

#[test]
fn compat_seed_is_sha256_of_identity_fields() {
    // All identity fields empty: the digest of the empty input.
    let mut b = fake_bootstrap(String::new());
    b.identity.node_id = String::new();
    b.identity.account_xpub_vanilla = String::new();
    b.identity.account_xpub_colored = String::new();
    b.identity.master_fingerprint = String::new();
    b.protocol_version = String::new();
    let seed = derive_async_payments_compat_seed_from_bootstrap(&b);
    let expected = "e3b0c44298fc1c149afbf4c8996fb92427ae41e4649b934ca495991b7852b855";
    let hex: String = seed.iter().map(|x| format!("{x:02x}")).collect();
    assert_eq!(hex, expected);
    // "abc" split over the fields hashes like "abc".
    b.identity.node_id = "a".to_string();
    b.identity.master_fingerprint = "b".to_string();
    b.protocol_version = "c".to_string();
    let seed = derive_async_payments_compat_seed_from_bootstrap(&b);
    let hex: String = seed.iter().map(|x| format!("{x:02x}")).collect();
    assert_eq!(hex, "ba7816bf8f01cfea414140de5dae2223b00361a396177a9cb410ff61f20015ad");
}

#[test]
fn aux_key_of_wrong_length_is_reported_with_its_length() {
    let mut b = fake_bootstrap(String::new());
    b.ldk_peer_storage_key_hex = "cd".repeat(31);
    assert_eq!(
        protocol_message(validate_bootstrap_ldk_auxiliary_keys(&b)),
        "ldk_peer_storage_key_hex must be 64 hex characters (32 bytes), got length 62"
    );
}

#[test]
fn aux_key_length_is_counted_in_bytes() {
    let mut b = fake_bootstrap(String::new());
    // 63 characters, 64 bytes: the length check passes, the hex check does not.
    b.ldk_inbound_payment_key_hex = format!("{}é", "a".repeat(62));
    let m = protocol_message(validate_bootstrap_ldk_auxiliary_keys(&b));
    assert!(m.starts_with("ldk_inbound_payment_key_hex is not valid hex: "), "{m}");
}

#[test]
fn aux_key_that_is_not_hex_is_reported() {
    let mut b = fake_bootstrap(String::new());
    b.ldk_receive_auth_key_hex = "zz".repeat(32);
    let m = protocol_message(validate_bootstrap_ldk_auxiliary_keys(&b));
    assert!(m.starts_with("ldk_receive_auth_key_hex is not valid hex: "), "{m}");
    assert!(m.len() > "ldk_receive_auth_key_hex is not valid hex: ".len());
}

#[test]
fn first_bad_field_is_reported() {
    let mut b = fake_bootstrap(String::new());
    b.ldk_inbound_payment_key_hex = "x".to_string();
    b.ldk_peer_storage_key_hex = "y".to_string();
    assert_eq!(
        protocol_message(validate_bootstrap_ldk_auxiliary_keys(&b)),
        "ldk_inbound_payment_key_hex must be 64 hex characters (32 bytes), got length 1"
    );
}

#[test]
fn async_seed_of_wrong_length_is_refused() {
    let b = fake_bootstrap("07".repeat(16));
    assert_eq!(
        protocol_message(validate_bootstrap_ldk_auxiliary_keys(&b)),
        "async_payments_root_seed_hex must be empty or 64 hex characters (32 bytes), got length 32"
    );
    match async_payments_root_seed_bytes(&b) {
        Err(RlnSignerError::Protocol(m)) => {
            assert_eq!(m, "async_payments_root_seed_hex must decode to exactly 32 bytes")
        }
        _ => panic!("expected a protocol error"),
    }
}

#[test]
fn async_seed_that_is_not_hex_is_refused() {
    let b = fake_bootstrap("g".repeat(64));
    let m = protocol_message(validate_bootstrap_ldk_auxiliary_keys(&b));
    assert!(m.starts_with("async_payments_root_seed_hex is not valid hex: "), "{m}");
    match async_payments_root_seed_bytes(&b) {
        Err(RlnSignerError::Protocol(m)) => {
            assert!(m.starts_with("async_payments_root_seed_hex invalid hex: "), "{m}")
        }
        _ => panic!("expected a protocol error"),
    }
}

#[test]
fn uppercase_hex_is_accepted() {
    let b = fake_bootstrap("AB".repeat(32));
    assert!(validate_bootstrap_ldk_auxiliary_keys(&b).is_ok());
    assert_eq!(async_payments_root_seed_bytes(&b).ok().unwrap(), [0xabu8; 32]);
}

#[test]
fn hex_error_texts_are_the_decoders() {
    let mut b = fake_bootstrap(String::new());
    b.ldk_receive_auth_key_hex = "zz".repeat(32);
    assert_eq!(
        protocol_message(validate_bootstrap_ldk_auxiliary_keys(&b)),
        "ldk_receive_auth_key_hex is not valid hex: invalid char, failed to create bytes from hex"
    );
    match async_payments_root_seed_bytes(&fake_bootstrap("abc".to_string())) {
        Err(RlnSignerError::Protocol(m)) => assert_eq!(
            m,
            "async_payments_root_seed_hex invalid hex: odd length, failed to create bytes from hex"
        ),
        _ => panic!("expected a protocol error"),
    }
}
