use rgb_lightning_node::rgb_kv_store::{
    channel_info_location, channel_namespace, config_location, consignment_location,
    payment_info_read_location, payment_info_write_location, payment_key, rgb_channel_info_location,
    transfer_info_location,
    update_rgb_channel_amount, write_rgb_payment_info_file, KvLocation, PaymentHash, RgbInfo,
    RgbPaymentInfo,
};

fn l(a: &str, b: &str, c: &str) -> KvLocation {
    KvLocation {
        primary_namespace: a.to_string(),
        secondary_namespace: b.to_string(),
        key: c.to_string(),
    }
}

#[test]
fn channel_namespaces() {
    assert_eq!(channel_namespace(true), "channel_info_pending");
    assert_eq!(channel_namespace(false), "channel_info");
}

#[test]
fn payment_keys() {
    let h = PaymentHash([0xab; 32]);
    assert_eq!(payment_key(&h, false), "ab".repeat(32));
    assert_eq!(payment_key(&h, true), format!("{}_pending", "ab".repeat(32)));
    let mut bytes = [0u8; 32];
    bytes[0] = 0x01;
    bytes[31] = 0xf0;
    let k = payment_key(&PaymentHash(bytes), false);
    assert!(k.starts_with("01") && k.ends_with("f0") && k.len() == 64);
}

#[test]
fn record_locations() {
    assert_eq!(config_location("indexer_url"), l("rgb", "wallet_config", "indexer_url"));
    assert_eq!(channel_info_location("cid", false), l("rgb", "channel_info", "cid"));
    assert_eq!(channel_info_location("cid", true), l("rgb", "channel_info_pending", "cid"));
    assert_eq!(transfer_info_location("tx"), l("rgb", "transfer_info", "tx"));
    assert_eq!(consignment_location("tx"), l("rgb", "consignment", "tx"));
    let h = PaymentHash([1; 32]);
    assert_eq!(payment_info_read_location(&h, true), l("rgb", "payment_info_inbound", &"01".repeat(32)));
    assert_eq!(payment_info_read_location(&h, false), l("rgb", "payment_info_outbound", &"01".repeat(32)));
}

#[test]
fn payment_info_is_read_where_it_was_written() {
    let h = PaymentHash([9; 32]);
    let info = RgbPaymentInfo {
        contract_id: "rgb:x".to_string(),
        amount: 5,
        local_rgb_amount: 0,
        remote_rgb_amount: 0,
        swap_payment: false,
        inbound: true,
    };
    assert_eq!(payment_info_write_location(&h, &info, false), payment_info_read_location(&h, true));
    assert_ne!(payment_info_write_location(&h, &info, true), payment_info_read_location(&h, true));
}

#[test]
fn new_payment_writes_confirmed_and_pending_copies() {
    let h = PaymentHash([2; 32]);
    let w = write_rgb_payment_info_file(&h, "rgb:asset", 1000, true, false);
    assert_eq!(w.len(), 2);
    let expected = RgbPaymentInfo {
        contract_id: "rgb:asset".to_string(),
        amount: 1000,
        local_rgb_amount: 0,
        remote_rgb_amount: 0,
        swap_payment: true,
        inbound: false,
    };
    assert_eq!(w[0].info, expected);
    assert_eq!(w[1].info, expected);
    assert_eq!(w[0].location, l("rgb", "payment_info_outbound", &"02".repeat(32)));
    assert_eq!(
        w[1].location,
        l("rgb", "payment_info_outbound", &format!("{}_pending", "02".repeat(32)))
    );
}

#[test]
fn settling_moves_amounts_between_sides() {
    let mut info = RgbInfo { contract_id: "c".to_string(), local_rgb_amount: 100, remote_rgb_amount: 50 };
    update_rgb_channel_amount(&mut info, 30, 10);
    assert_eq!((info.local_rgb_amount, info.remote_rgb_amount), (80, 70));
    update_rgb_channel_amount(&mut info, 5, 25);
    assert_eq!((info.local_rgb_amount, info.remote_rgb_amount), (100, 50));
    update_rgb_channel_amount(&mut info, 7, 7);
    assert_eq!((info.local_rgb_amount, info.remote_rgb_amount), (100, 50));
    assert_eq!(info.contract_id, "c");
}

#[test]
fn settling_conserves_the_channel_total() {
    let mut info = RgbInfo { contract_id: "c".to_string(), local_rgb_amount: 1000, remote_rgb_amount: 0 };
    for (o, r) in [(10u64, 0u64), (0, 3), (400, 200), (1, 1)] {
        update_rgb_channel_amount(&mut info, o, r);
        assert_eq!(info.local_rgb_amount + info.remote_rgb_amount, 1000);
    }
}

#[test]
fn config_writes() {
    let (loc, bytes) = rgb_lightning_node::rgb_kv_store::write_config("proxy", "rpc://x");
    assert_eq!(loc, l("rgb", "wallet_config", "proxy"));
    assert_eq!(bytes, b"rpc://x".to_vec());
}

#[test]
fn channel_id_location_uses_hex_display() {
    let mut id = [0u8; 32];
    id[0] = 0xab;
    id[31] = 0x01;
    let key = format!("ab{}01", "00".repeat(30));
    assert_eq!(rgb_channel_info_location(&id, false), l("rgb", "channel_info", &key));
    assert_eq!(rgb_channel_info_location(&id, true), l("rgb", "channel_info_pending", &key));
}
