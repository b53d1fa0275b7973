use bitcoin::hex::DisplayHex;
use bitcoin::secp256k1::{Message, Secp256k1, SecretKey};
use rgb_lightning_node::bootstrap::{BootstrapData, RlnSignerError, SignerIdentity};
use rgb_lightning_node::signer::{
    derive_channel_signer_request, generate_channel_keys_id_request, get_destination_script_request,
    get_node_id_request, BackendRequest, ecdh_request, sign_bolt12_invoice_request, sign_gossip_message_request, sign_invoice_request,
    sign_message_request, ChannelPublicKeys, ExternalSigner, NodeRequest, NodeResponse, Recipient,
    SignerResponse, SpendableDescriptor, SpendableOutputKind,
};

fn bootstrap(node_id: &str) -> BootstrapData {
    BootstrapData {
        identity: SignerIdentity {
            node_id: node_id.to_string(),
            account_xpub_vanilla: "xv".to_string(),
            account_xpub_colored: "xc".to_string(),
            master_fingerprint: "deadbeef".to_string(),
        },
        protocol_version: "1".to_string(),
        api_level: 1,
        ldk_inbound_payment_key_hex: String::new(),
        ldk_peer_storage_key_hex: String::new(),
        ldk_receive_auth_key_hex: String::new(),
        async_payments_root_seed_hex: String::new(),
    }
}

fn transport() -> RlnSignerError {
    RlnSignerError::Transport("down".to_string())
}

fn node(r: NodeResponse) -> Result<SignerResponse, RlnSignerError> {
    Ok(SignerResponse::Node(r))
}

fn sig(h: String) -> Result<SignerResponse, RlnSignerError> {
    node(NodeResponse::Signature { signature_hex: h })
}

#[test]
fn seed_material_folds_node_id_bytes() {
    let id = "02".repeat(33);
    let mut expected = [0u8; 32];
    for (i, b) in id.as_bytes().iter().enumerate() {
        expected[i % 32] ^= *b;
    }
    assert_eq!(ExternalSigner::seed_material(Ok(bootstrap(&id))), expected);
    // "02" * 33 is 66 bytes: positions 0 and 1 get three bytes, the rest two.
    assert_eq!(expected[0], b'0');
    assert_eq!(expected[1], b'2');
    assert_eq!(expected[2], 0);
    assert_eq!(ExternalSigner::seed_material(Err(transport())), [0u8; 32]);
    assert_eq!(ExternalSigner::seed_material(Ok(bootstrap(""))), [0u8; 32]);
}

#[test]
fn random_bytes_and_keys_id_from_hex_answers() {
    assert_eq!(ExternalSigner::get_secure_random_bytes(Ok("11".repeat(32))), [0x11; 32]);
    let mut long = "22".repeat(32);
    long.push_str("ff");
    assert_eq!(ExternalSigner::generate_channel_keys_id(Ok(long)), [0x22; 32]);
    assert_eq!(ExternalSigner::generate_channel_keys_id(Ok("33".repeat(31))), [0; 32]);
    assert_eq!(ExternalSigner::generate_channel_keys_id(Ok("zz".repeat(32))), [0; 32]);
    assert_eq!(ExternalSigner::get_secure_random_bytes(Err(transport())), [0; 32]);
}

#[test]
fn channel_signer_setup() {
    let keys = ChannelPublicKeys {
        funding_pubkey_hex: "a".to_string(),
        revocation_basepoint_hex: "b".to_string(),
        payment_point_hex: "c".to_string(),
        delayed_payment_basepoint_hex: "d".to_string(),
        htlc_basepoint_hex: "e".to_string(),
    };
    let ok = ExternalSigner::derive_channel_signer(&[0xcd; 32], Ok(("state".to_string(), keys.clone())));
    assert_eq!(ok.channel_keys_id_hex, "cd".repeat(32));
    assert_eq!(ok.channel_signer_state_hex, "state");
    assert_eq!(ok.channel_pubkeys, keys);
    let fallback = ExternalSigner::derive_channel_signer(&[0; 32], Err(transport()));
    assert_eq!(fallback.channel_keys_id_hex, "00".repeat(32));
    assert_eq!(fallback.channel_signer_state_hex, "");
    assert_eq!(fallback.channel_pubkeys.funding_pubkey_hex, "02".repeat(33));
    assert_eq!(fallback.channel_pubkeys.htlc_basepoint_hex, "02".repeat(33));
    assert_eq!(fallback.channel_pubkeys.payment_point_hex, "02".repeat(33));
}

#[test]
fn wallet_account() {
    let a = ExternalSigner::rgb_wallet_account(Ok(bootstrap("n")));
    assert_eq!(a.account_xpub_vanilla, "xv");
    assert_eq!(a.account_xpub_colored, "xc");
    assert_eq!(a.master_fingerprint, "deadbeef");
    assert_eq!(a.vanilla_keychain, None);
    let e = ExternalSigner::rgb_wallet_account(Err(transport()));
    assert_eq!(e.account_xpub_vanilla, "");
    assert_eq!(e.master_fingerprint, "");
}

#[test]
fn recipient_labels() {
    assert_eq!(ExternalSigner::recipient_label(&Recipient::Node), "node");
    assert_eq!(ExternalSigner::recipient_label(&Recipient::PhantomNode), "phantom");
}

#[test]
fn requests() {
    let mut key = [0u8; 33];
    key[0] = 0x02;
    key[32] = 0xff;
    match ecdh_request(&Recipient::PhantomNode, &key, Some(&[0x10; 32])) {
        NodeRequest::Ecdh { recipient, other_key, tweak } => {
            assert_eq!(recipient, "phantom");
            assert_eq!(other_key, key.to_lower_hex_string());
            assert_eq!(tweak, Some("10".repeat(32)));
        }
        _ => panic!("wrong request"),
    }
    match ecdh_request(&Recipient::Node, &key, None) {
        NodeRequest::Ecdh { tweak, .. } => assert_eq!(tweak, None),
        _ => panic!("wrong request"),
    }
    assert_eq!(
        sign_invoice_request("lnbcrt".to_string(), &[0xaa; 32]),
        NodeRequest::SignInvoice { hrp: "lnbcrt".to_string(), u5bytes_hex: "aa".repeat(32) }
    );
    assert_eq!(
        sign_bolt12_invoice_request(&[1, 2]),
        NodeRequest::SignBolt12Invoice { invoice: "0102".to_string() }
    );
    assert_eq!(
        sign_gossip_message_request(&[0xfe]),
        NodeRequest::SignGossipMessage { message_hex: "fe".to_string() }
    );
    assert_eq!(
        sign_message_request(b"hi"),
        Ok(NodeRequest::SignMessage { message: "hi".to_string() })
    );
    assert_eq!(sign_message_request(&[0xff, 0xfe]), Err(()));
}

#[test]
fn ecdh_answers() {
    let secret = ExternalSigner::ecdh(node(NodeResponse::Ecdh { shared_secret_hex: "42".repeat(32) }))
        .expect("secret");
    assert_eq!(secret.secret_bytes(), [0x42; 32]);
    assert!(ExternalSigner::ecdh(node(NodeResponse::Ecdh { shared_secret_hex: "42".repeat(31) })).is_err());
    assert!(ExternalSigner::ecdh(node(NodeResponse::Ecdh { shared_secret_hex: "xx".to_string() })).is_err());
    assert!(ExternalSigner::ecdh(sig("42".repeat(32))).is_err());
    assert!(ExternalSigner::ecdh(Ok(SignerResponse::Other)).is_err());
    assert!(ExternalSigner::ecdh(Err(transport())).is_err());
}

#[test]
fn ecdsa_signature_answers() {
    let secp = Secp256k1::new();
    let sk = SecretKey::from_slice(&[3; 32]).unwrap();
    let msg = Message::from_digest([9; 32]);
    let s = secp.sign_ecdsa(&msg, &sk);
    let der = s.serialize_der().to_lower_hex_string();
    let compact = s.serialize_compact().to_lower_hex_string();
    assert_eq!(ExternalSigner::parse_signature(&der), Ok(s));
    assert_eq!(ExternalSigner::parse_signature(&compact), Ok(s));
    assert_eq!(ExternalSigner::parse_signature("00"), Err(()));
    assert_eq!(ExternalSigner::parse_signature("nothex"), Err(()));
    assert_eq!(ExternalSigner::sign_gossip_message(sig(der)), Ok(s));
    assert_eq!(ExternalSigner::sign_gossip_message(Ok(SignerResponse::Other)), Err(()));
}

#[test]
fn recoverable_signature_answers() {
    let secp = Secp256k1::new();
    let sk = SecretKey::from_slice(&[4; 32]).unwrap();
    let msg = Message::from_digest([8; 32]);
    let s = secp.sign_ecdsa_recoverable(&msg, &sk);
    let (id, bytes) = s.serialize_compact();
    let ok = ExternalSigner::sign_invoice(node(NodeResponse::RecoverableSignature {
        signature_hex: bytes.to_lower_hex_string(),
        recovery_id: id.to_i32() as u32,
    }));
    assert_eq!(ok, Ok(s));
    let bad_id = ExternalSigner::sign_invoice(node(NodeResponse::RecoverableSignature {
        signature_hex: bytes.to_lower_hex_string(),
        recovery_id: 4,
    }));
    assert_eq!(bad_id, Err(()));
    let short = ExternalSigner::sign_invoice(node(NodeResponse::RecoverableSignature {
        signature_hex: bytes[..63].to_lower_hex_string(),
        recovery_id: 0,
    }));
    assert_eq!(short, Err(()));
    assert_eq!(ExternalSigner::sign_invoice(sig(bytes.to_lower_hex_string())), Err(()));
}

#[test]
fn schnorr_and_message_answers() {
    let b = ExternalSigner::sign_bolt12_invoice(sig("07".repeat(64))).expect("sig");
    assert_eq!(b.serialize(), [7u8; 64]);
    assert!(ExternalSigner::sign_bolt12_invoice(sig("07".repeat(63))).is_err());
    assert_eq!(ExternalSigner::sign_message(sig("abc".to_string())), Ok("abc".to_string()));
    assert_eq!(ExternalSigner::sign_message(Ok(SignerResponse::Other)), Err(()));
    assert_eq!(ExternalSigner::sign_message(Err(transport())), Err(()));
}

#[test]
fn node_id_and_script_answers() {
    let secp = Secp256k1::new();
    let sk = SecretKey::from_slice(&[5; 32]).unwrap();
    let pk = bitcoin::secp256k1::PublicKey::from_secret_key(&secp, &sk);
    let hex = pk.serialize().to_lower_hex_string();
    assert_eq!(ExternalSigner::get_node_id(Ok(hex)), Ok(pk));
    assert_eq!(ExternalSigner::get_node_id(Ok("02".repeat(10))), Err(()));
    assert_eq!(ExternalSigner::get_node_id(Err(transport())), Err(()));
    assert_eq!(ExternalSigner::get_destination_script(Ok("0014ab".to_string())), Ok(vec![0x00, 0x14, 0xab]));
    assert_eq!(ExternalSigner::get_destination_script(Ok("0".to_string())), Err(()));
    assert_eq!(ExternalSigner::get_destination_script(Err(transport())), Err(()));
}

#[test]
fn spendable_output_descriptors_as_json() {
    let mut txid = [0u8; 32];
    for (i, b) in txid.iter_mut().enumerate() {
        *b = i as u8;
    }
    let descriptors = vec![
        SpendableDescriptor { kind: SpendableOutputKind::StaticOutput, txid, outnum: 3, amount_sat: 12345 },
        SpendableDescriptor { kind: SpendableOutputKind::DelayedPaymentOutput, txid, outnum: 0, amount_sat: 0 },
        SpendableDescriptor { kind: SpendableOutputKind::StaticPaymentOutput, txid, outnum: 65535, amount_sat: u64::MAX },
    ];
    let payload = ExternalSigner::sign_spendable_outputs_payload(&descriptors);
    assert_eq!(payload.len(), 3);
    let displayed = bitcoin::Txid::from_raw_hash(bitcoin::hashes::Hash::from_byte_array(txid)).to_string();
    let reversed: String = txid.iter().rev().map(|b| format!("{b:02x}")).collect();
    assert_eq!(displayed, reversed);
    for (d, text) in descriptors.iter().zip(payload.iter()) {
        let mut m = serde_json::Map::new();
        m.insert("txid".into(), serde_json::Value::String(reversed.clone()));
        m.insert("outnum".into(), serde_json::Value::from(d.outnum));
        m.insert("amount".into(), serde_json::Value::from(d.amount_sat));
        let keyindex: u32 = if d.kind == SpendableOutputKind::StaticOutput { 1 } else { 0 };
        m.insert("keyindex".into(), serde_json::Value::from(keyindex));
        m.insert("is_p2sh".into(), serde_json::Value::Bool(false));
        m.insert("script_hex".into(), serde_json::Value::String(String::new()));
        m.insert("is_in_coinbase".into(), serde_json::Value::Bool(false));
        assert_eq!(text, &serde_json::Value::Object(m).to_string());
    }
    assert!(payload[0].starts_with("{\"amount\":12345,"));
}

#[test]
fn shutdown_script_accepts_witness_v0_and_keeps_the_script() {
    let p2wpkh = format!("0014{}", "11".repeat(20));
    let s = ExternalSigner::get_shutdown_scriptpubkey(Ok(p2wpkh.clone())).unwrap();
    assert_eq!(s.into_inner().as_bytes().to_lower_hex_string(), p2wpkh);
    let p2wsh = format!("0020{}", "22".repeat(32));
    assert!(ExternalSigner::get_shutdown_scriptpubkey(Ok(p2wsh)).is_ok());
}

#[test]
fn shutdown_script_refusals() {
    assert!(ExternalSigner::get_shutdown_scriptpubkey(Ok("51".to_string())).is_err());
    assert!(ExternalSigner::get_shutdown_scriptpubkey(Ok("zz".to_string())).is_err());
    assert!(ExternalSigner::get_shutdown_scriptpubkey(Err(transport())).is_err());
}

#[test]
fn backend_requests() {
    assert_eq!(
        get_node_id_request(&Recipient::PhantomNode),
        BackendRequest::NodeGetNodeId { recipient: "phantom".to_string() }
    );
    assert_eq!(
        get_destination_script_request(&[0xab; 32]),
        BackendRequest::NodeGetDestinationScript { channel_keys_id_hex: "ab".repeat(32) }
    );
    assert_eq!(
        generate_channel_keys_id_request(true, 7),
        BackendRequest::GenerateChannelKeysId { inbound: true, channel_value_satoshis: 0, user_channel_id: 7 }
    );
    assert_eq!(
        derive_channel_signer_request(&[0x0f; 32]),
        BackendRequest::DeriveChannelSigner { channel_value_satoshis: 0, channel_keys_id_hex: "0f".repeat(32) }
    );
    assert_eq!(
        ExternalSigner::sign_rgb_psbt(vec!["d".to_string()], "p".to_string()),
        BackendRequest::SignRgbPsbt { descriptors: vec!["d".to_string()], psbt: "p".to_string() }
    );
}

#[test]
fn compact_halves_at_or_above_the_group_order_are_refused() {
    assert_eq!(ExternalSigner::parse_signature(&"ff".repeat(64)), Err(()));
    let r = ExternalSigner::sign_invoice(node(NodeResponse::RecoverableSignature {
        signature_hex: "ff".repeat(64),
        recovery_id: 0,
    }));
    assert_eq!(r, Err(()));
    let ok = ExternalSigner::sign_invoice(node(NodeResponse::RecoverableSignature {
        signature_hex: "01".repeat(64),
        recovery_id: 3,
    }))
    .expect("in range");
    let (id, bytes) = ok.serialize_compact();
    assert_eq!(id.to_i32(), 3);
    assert_eq!(bytes, [1u8; 64]);
}
