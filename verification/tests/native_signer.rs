use rgb_lightning_node::bootstrap::{BootstrapData, RlnSignerError, SignerIdentity};
use rgb_lightning_node::ffi::RlnError;
use rgb_lightning_node::native_signer::{
    clone_bootstrap, NativeExternalSigner, Network, SdkExternalSignerBootstrap,
};
use rgb_lightning_node::signer::SignerResponse;

fn data() -> BootstrapData {
    BootstrapData {
        identity: SignerIdentity {
            node_id: "02aa".to_string(),
            account_xpub_vanilla: "xv".to_string(),
            account_xpub_colored: "xc".to_string(),
            master_fingerprint: "f00d".to_string(),
        },
        protocol_version: "2".to_string(),
        api_level: 1,
        ldk_inbound_payment_key_hex: "ab".repeat(32),
        ldk_peer_storage_key_hex: "cd".repeat(32),
        ldk_receive_auth_key_hex: "ef".repeat(32),
        async_payments_root_seed_hex: String::new(),
    }
}

#[test]
fn network_names() {
    assert_eq!(NativeExternalSigner::parse_network("mainnet"), Ok(Network::Bitcoin));
    assert_eq!(NativeExternalSigner::parse_network("Bitcoin"), Ok(Network::Bitcoin));
    assert_eq!(NativeExternalSigner::parse_network("TESTNET"), Ok(Network::Testnet));
    assert_eq!(NativeExternalSigner::parse_network("testnet4"), Ok(Network::Testnet));
    assert_eq!(NativeExternalSigner::parse_network("Signet"), Ok(Network::Signet));
    assert_eq!(NativeExternalSigner::parse_network("regtest"), Ok(Network::Regtest));
    assert_eq!(NativeExternalSigner::parse_network("liquid"), Err(RlnError::InvalidRequest));
    assert_eq!(NativeExternalSigner::parse_network(""), Err(RlnError::InvalidRequest));
}

#[test]
fn seeds() {
    assert_eq!(NativeExternalSigner::parse_seed_hex(&"01".repeat(32)), Ok([1u8; 32]));
    assert_eq!(NativeExternalSigner::parse_seed_hex(&"01".repeat(31)), Err(RlnError::InvalidRequest));
    assert_eq!(NativeExternalSigner::parse_seed_hex("zz"), Err(RlnError::InvalidRequest));
}

#[test]
fn sdk_bootstrap_record() {
    let b = NativeExternalSigner::map_bootstrap(data());
    assert_eq!(b.node_id, "02aa");
    assert_eq!(b.account_xpub_vanilla, "xv");
    assert_eq!(b.account_xpub_colored, "xc");
    assert_eq!(b.master_fingerprint, "f00d");
    assert_eq!(b.protocol_version, "2");
    assert_eq!(b.api_level, 1);
    assert_eq!(b.ldk_peer_storage_key_hex, "cd".repeat(32));
    let c: SdkExternalSignerBootstrap = clone_bootstrap(&b);
    assert_eq!(c, b);
}

#[test]
fn bootstrap_answers() {
    let signer = NativeExternalSigner::new("01".repeat(32), "regtest".to_string(), None).unwrap();
    assert_eq!(
        signer.bootstrap(Ok(SignerResponse::Bootstrap(data()))),
        Ok(NativeExternalSigner::map_bootstrap(data()))
    );
    assert_eq!(signer.bootstrap(Ok(SignerResponse::Other)), Err(RlnError::Internal));
    assert_eq!(
        signer.bootstrap(Err(RlnSignerError::Transport("x".to_string()))),
        Err(RlnError::Internal)
    );
}

#[test]
fn native_signer_arguments() {
    let s = NativeExternalSigner::new("02".repeat(32), "Signet".to_string(), None).unwrap();
    assert_eq!(s.network, Network::Signet);
    assert_eq!(s.seed, [2u8; 32]);
    assert!(s.permissive_policy);
    let s = NativeExternalSigner::new("02".repeat(32), "bitcoin".to_string(), Some(false)).unwrap();
    assert_eq!(s.network, Network::Bitcoin);
    assert!(!s.permissive_policy);
    assert_eq!(
        NativeExternalSigner::new("02".repeat(32), "liquid".to_string(), Some(true)),
        Err(RlnError::InvalidRequest)
    );
    assert_eq!(
        NativeExternalSigner::new("02".repeat(31), "regtest".to_string(), None),
        Err(RlnError::InvalidRequest)
    );
}
