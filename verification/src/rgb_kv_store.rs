//! RGB key layout on top of the node's key-value store: which namespace and
//! key each RGB record lives under, the payment info records that are
//! written, and how HTLC settlement moves RGB amounts within a channel.
use vstd::prelude::*;
use vstd::utf8::encode_utf8;
use crate::hex::{hex_lower, lemma_hex_roundtrip, lower_hex_string};
use lightning::ln::types::ChannelId;

verus! {

pub const RGB_PRIMARY_NS: &'static str = "rgb";
pub const RGB_CHANNEL_INFO_NS: &'static str = "channel_info";
pub const RGB_CHANNEL_INFO_PENDING_NS: &'static str = "channel_info_pending";
pub const RGB_PAYMENT_INFO_INBOUND_NS: &'static str = "payment_info_inbound";
pub const RGB_PAYMENT_INFO_OUTBOUND_NS: &'static str = "payment_info_outbound";
pub const RGB_TRANSFER_INFO_NS: &'static str = "transfer_info";
pub const RGB_CONSIGNMENT_NS: &'static str = "consignment";
pub const RGB_WALLET_CONFIG_NS: &'static str = "wallet_config";

/// A Lightning payment hash.
#[derive(Debug, Clone, PartialEq, Eq)]
pub struct PaymentHash(pub [u8; 32]);

/// Where a record lives in the key-value store.
#[derive(Debug, Clone, PartialEq, Eq)]
pub struct KvLocation {
    pub primary_namespace: String,
    pub secondary_namespace: String,
    pub key: String,
}

/// The view of a location: its three strings.
pub open spec fn loc(l: KvLocation) -> (Seq<char>, Seq<char>, Seq<char>) {
    (l.primary_namespace@, l.secondary_namespace@, l.key@)
}

/// Secondary namespace of channel info records.
pub open spec fn channel_namespace_spec(pending: bool) -> Seq<char> {
    if pending {
        RGB_CHANNEL_INFO_PENDING_NS@
    } else {
        RGB_CHANNEL_INFO_NS@
    }
}

/// Secondary namespace of channel info records, pending or confirmed.
pub fn channel_namespace(pending: bool) -> (ns: &'static str)
    ensures
        ns@ == channel_namespace_spec(pending),
{
    if pending {
        RGB_CHANNEL_INFO_PENDING_NS
    } else {
        RGB_CHANNEL_INFO_NS
    }
}

/// Secondary namespace of payment info records by direction.
pub open spec fn payment_namespace_spec(inbound: bool) -> Seq<char> {
    if inbound {
        RGB_PAYMENT_INFO_INBOUND_NS@
    } else {
        RGB_PAYMENT_INFO_OUTBOUND_NS@
    }
}

/// Secondary namespace of payment info records by direction.
pub fn payment_namespace(inbound: bool) -> (ns: &'static str)
    ensures
        ns@ == payment_namespace_spec(inbound),
{
    if inbound {
        RGB_PAYMENT_INFO_INBOUND_NS
    } else {
        RGB_PAYMENT_INFO_OUTBOUND_NS
    }
}

/// Key of a payment info record: the hash in lower-case hex, with the
/// suffix `_pending` for the pending copy.
pub open spec fn payment_key_spec(hash: Seq<u8>, pending: bool) -> Seq<char> {
    if pending {
        hex_lower(hash) + "_pending"@
    } else {
        hex_lower(hash)
    }
}

/// Key of a payment info record.
pub fn payment_key(payment_hash: &PaymentHash, pending: bool) -> (key: String)
    ensures
        key@ == payment_key_spec(payment_hash.0@, pending),
{
    let hash = lower_hex_string(payment_hash.0.as_slice());
    if pending {
        let mut k = hash;
        k.append("_pending");
        k
    } else {
        hash
    }
}

fn location(primary: &str, secondary: &str, key: &str) -> (l: KvLocation)
    ensures
        loc(l) == (primary@, secondary@, key@),
{
    KvLocation {
        primary_namespace: String::from_str(primary),
        secondary_namespace: String::from_str(secondary),
        key: String::from_str(key),
    }
}

/// Location of a wallet configuration entry.
pub fn config_location(key: &str) -> (l: KvLocation)
    ensures
        loc(l) == (RGB_PRIMARY_NS@, RGB_WALLET_CONFIG_NS@, key@),
{
    location(RGB_PRIMARY_NS, RGB_WALLET_CONFIG_NS, key)
}

/// A wallet configuration write: where it goes and the value's UTF-8 bytes.
pub fn write_config(key: &str, value: &str) -> (w: (KvLocation, Vec<u8>))
    ensures
        loc(w.0) == (RGB_PRIMARY_NS@, RGB_WALLET_CONFIG_NS@, key@),
        w.1@ == encode_utf8(value@),
{
    let mut bytes: Vec<u8> = Vec::new();
    bytes.extend_from_slice(value.as_bytes());
    assert(bytes@ =~= encode_utf8(value@));
    (config_location(key), bytes)
}

/// Location of a channel's RGB info, read, written and removed alike.
pub fn channel_info_location(channel_id: &str, pending: bool) -> (l: KvLocation)
    ensures
        loc(l) == (RGB_PRIMARY_NS@, channel_namespace_spec(pending), channel_id@),
{
    location(RGB_PRIMARY_NS, channel_namespace(pending), channel_id)
}

/// `ChannelId`'s `Display` of `lightning`: the lower-case hex of the id's
/// bytes, in order.
#[verifier::external_body]
fn channel_id_string(bytes: [u8; 32]) -> (s: String)
    ensures
        s@ == hex_lower(bytes@),
{
    ChannelId(bytes).to_string()
}

/// Location of the RGB info of a channel given by its id, as the channel
/// checks look it up: keyed by the id's display form.
pub fn rgb_channel_info_location(channel_id: &[u8; 32], pending: bool) -> (l: KvLocation)
    ensures
        loc(l) == (RGB_PRIMARY_NS@, channel_namespace_spec(pending), hex_lower(channel_id@)),
{
    let key = channel_id_string(*channel_id);
    channel_info_location(key.as_str(), pending)
}

/// Location the payment info of a payment is read from: always the
/// confirmed (non-pending) copy in the direction's namespace.
pub fn payment_info_read_location(payment_hash: &PaymentHash, inbound: bool) -> (l: KvLocation)
    ensures
        loc(l) == payment_info_read_loc(payment_hash.0@, inbound),
{
    let key = payment_key(payment_hash, false);
    location(RGB_PRIMARY_NS, payment_namespace(inbound), key.as_str())
}

/// RGB information attached to a payment.
#[derive(Debug, Clone, PartialEq, Eq)]
pub struct RgbPaymentInfo {
    pub contract_id: String,
    pub amount: u64,
    pub local_rgb_amount: u64,
    pub remote_rgb_amount: u64,
    pub swap_payment: bool,
    pub inbound: bool,
}

/// Location a payment info record is written to: the namespace of its own
/// direction, under the pending or the confirmed key.
pub fn payment_info_write_location(
    payment_hash: &PaymentHash,
    payment_info: &RgbPaymentInfo,
    pending: bool,
) -> (l: KvLocation)
    ensures
        loc(l) == payment_info_write_loc(payment_hash.0@, payment_info.inbound, pending),
{
    let key = payment_key(payment_hash, pending);
    location(RGB_PRIMARY_NS, payment_namespace(payment_info.inbound), key.as_str())
}

/// Location of a transfer's info record.
pub fn transfer_info_location(txid: &str) -> (l: KvLocation)
    ensures
        loc(l) == (RGB_PRIMARY_NS@, RGB_TRANSFER_INFO_NS@, txid@),
{
    location(RGB_PRIMARY_NS, RGB_TRANSFER_INFO_NS, txid)
}

/// Location of a transfer's consignment, read and removed alike.
pub fn consignment_location(txid: &str) -> (l: KvLocation)
    ensures
        loc(l) == (RGB_PRIMARY_NS@, RGB_CONSIGNMENT_NS@, txid@),
{
    location(RGB_PRIMARY_NS, RGB_CONSIGNMENT_NS, txid)
}

/// A payment info record and the location it is written to.
#[derive(Debug, Clone, PartialEq, Eq)]
pub struct PaymentInfoWrite {
    pub location: KvLocation,
    pub info: RgbPaymentInfo,
}

/// The record a new RGB payment starts with: no local or remote amount yet.
pub open spec fn new_payment_info(
    contract_id: Seq<char>,
    amount_rgb: u64,
    swap_payment: bool,
    inbound: bool,
    info: RgbPaymentInfo,
) -> bool {
    &&& info.contract_id@ == contract_id
    &&& info.amount == amount_rgb
    &&& info.local_rgb_amount == 0
    &&& info.remote_rgb_amount == 0
    &&& info.swap_payment == swap_payment
    &&& info.inbound == inbound
}

fn new_record(contract_id: &str, amount_rgb: u64, swap_payment: bool, inbound: bool) -> (info:
    RgbPaymentInfo)
    ensures
        new_payment_info(contract_id@, amount_rgb, swap_payment, inbound, info),
{
    RgbPaymentInfo {
        contract_id: String::from_str(contract_id),
        amount: amount_rgb,
        local_rgb_amount: 0,
        remote_rgb_amount: 0,
        swap_payment,
        inbound,
    }
}

/// The writes that record a new RGB payment: the same fresh record, first
/// under the confirmed key, then under the pending key.
pub fn write_rgb_payment_info_file(
    payment_hash: &PaymentHash,
    contract_id: &str,
    amount_rgb: u64,
    swap_payment: bool,
    inbound: bool,
) -> (writes: Vec<PaymentInfoWrite>)
    ensures
        writes@.len() == 2,
        forall|i: int|
            0 <= i < 2 ==> new_payment_info(
                contract_id@,
                amount_rgb,
                swap_payment,
                inbound,
                #[trigger] writes@[i].info,
            ),
        loc(writes@[0].location) == payment_info_write_loc(payment_hash.0@, inbound, false),
        loc(writes@[1].location) == payment_info_write_loc(payment_hash.0@, inbound, true),
{
    let first = new_record(contract_id, amount_rgb, swap_payment, inbound);
    let second = new_record(contract_id, amount_rgb, swap_payment, inbound);
    let l0 = payment_info_write_location(payment_hash, &first, false);
    let l1 = payment_info_write_location(payment_hash, &second, true);
    let mut writes: Vec<PaymentInfoWrite> = Vec::new();
    writes.push(PaymentInfoWrite { location: l0, info: first });
    writes.push(PaymentInfoWrite { location: l1, info: second });
    writes
}

/// RGB state of a channel.
#[derive(Debug, Clone, PartialEq, Eq)]
pub struct RgbInfo {
    pub contract_id: String,
    pub local_rgb_amount: u64,
    pub remote_rgb_amount: u64,
}

/// Local and remote RGB amounts after settling HTLCs that offered `offered`
/// and received `received` units: the difference moves from one side to
/// the other.
pub open spec fn settle_htlcs(local: int, remote: int, offered: int, received: int) -> (int, int) {
    (local - offered + received, remote + offered - received)
}

/// Whether settling stays within `u64` on both sides (the update panics on
/// overflow otherwise).
pub open spec fn settle_fits(local: int, remote: int, offered: int, received: int) -> bool {
    let (l, r) = settle_htlcs(local, remote, offered, received);
    0 <= l <= u64::MAX && 0 <= r <= u64::MAX
}

/// Moves RGB amounts between the local and remote side of a channel after
/// HTLCs were settled.
pub fn update_rgb_channel_amount(rgb_info: &mut RgbInfo, rgb_offered_htlc: u64, rgb_received_htlc: u64)
    requires
        settle_fits(
            old(rgb_info).local_rgb_amount as int,
            old(rgb_info).remote_rgb_amount as int,
            rgb_offered_htlc as int,
            rgb_received_htlc as int,
        ),
    ensures
        (final(rgb_info).local_rgb_amount as int, final(rgb_info).remote_rgb_amount as int)
            == settle_htlcs(
            old(rgb_info).local_rgb_amount as int,
            old(rgb_info).remote_rgb_amount as int,
            rgb_offered_htlc as int,
            rgb_received_htlc as int,
        ),
        final(rgb_info).contract_id == old(rgb_info).contract_id,
{
    if rgb_offered_htlc > rgb_received_htlc {
        let spent = rgb_offered_htlc - rgb_received_htlc;
        rgb_info.local_rgb_amount = rgb_info.local_rgb_amount - spent;
        rgb_info.remote_rgb_amount = rgb_info.remote_rgb_amount + spent;
    } else {
        let received = rgb_received_htlc - rgb_offered_htlc;
        rgb_info.local_rgb_amount = rgb_info.local_rgb_amount + received;
        rgb_info.remote_rgb_amount = rgb_info.remote_rgb_amount - received;
    }
}

/// Settling HTLCs neither creates nor destroys RGB units in a channel.
pub proof fn lemma_settle_conserves_total(local: int, remote: int, offered: int, received: int)
    ensures
        settle_htlcs(local, remote, offered, received).0 + settle_htlcs(
            local,
            remote,
            offered,
            received,
        ).1 == local + remote,
{
}

/// Settling the opposite HTLCs undoes a settlement.
pub proof fn lemma_settle_reversible(local: int, remote: int, offered: int, received: int)
    ensures
        ({
            let (l, r) = settle_htlcs(local, remote, offered, received);
            settle_htlcs(l, r, received, offered) == (local, remote)
        }),
{
}

/// Location payment info is read from.
pub open spec fn payment_info_read_loc(hash: Seq<u8>, inbound: bool) -> (Seq<char>, Seq<char>, Seq<char>) {
    (RGB_PRIMARY_NS@, payment_namespace_spec(inbound), payment_key_spec(hash, false))
}

/// Location payment info is written to.
pub open spec fn payment_info_write_loc(hash: Seq<u8>, inbound: bool, pending: bool) -> (
    Seq<char>,
    Seq<char>,
    Seq<char>,
) {
    (RGB_PRIMARY_NS@, payment_namespace_spec(inbound), payment_key_spec(hash, pending))
}

/// A payment info record written without the pending flag is the one read
/// back for its payment and direction; one written with the pending flag is
/// never read back by a read of payment info.
pub proof fn lemma_payment_info_read_after_write(hash: Seq<u8>, inbound: bool, read_inbound: bool)
    requires
        hash.len() == 32,
    ensures
        payment_info_write_loc(hash, inbound, false) == payment_info_read_loc(hash, inbound),
        payment_info_write_loc(hash, inbound, true) != payment_info_read_loc(hash, read_inbound),
{
    lemma_payment_keys_distinct(hash, true, hash, false);
}

/// Payment keys tell apart both the payment and the pending flag: distinct
/// (hash, pending) pairs never share a key.
pub proof fn lemma_payment_keys_distinct(h1: Seq<u8>, p1: bool, h2: Seq<u8>, p2: bool)
    requires
        h1.len() == 32,
        h2.len() == 32,
        h1 != h2 || p1 != p2,
    ensures
        payment_key_spec(h1, p1) != payment_key_spec(h2, p2),
{
    reveal_strlit("_pending");
    lemma_hex_roundtrip(h1);
    lemma_hex_roundtrip(h2);
    if p1 != p2 {
        assert(payment_key_spec(h1, p1).len() != payment_key_spec(h2, p2).len());
    } else if payment_key_spec(h1, p1) == payment_key_spec(h2, p2) {
        if p1 {
            assert(hex_lower(h1) =~= payment_key_spec(h1, p1).subrange(0, 64));
            assert(hex_lower(h2) =~= payment_key_spec(h2, p2).subrange(0, 64));
        }
        assert(hex_lower(h1) == hex_lower(h2));
        assert(h1 == h2);
    }
}

/// Pending and confirmed channel info live in different namespaces, as do
/// inbound and outbound payment info.
pub proof fn lemma_namespaces_distinct()
    ensures
        channel_namespace_spec(true) != channel_namespace_spec(false),
        payment_namespace_spec(true) != payment_namespace_spec(false),
{
    reveal_strlit("channel_info");
    reveal_strlit("channel_info_pending");
    reveal_strlit("payment_info_inbound");
    reveal_strlit("payment_info_outbound");
    assert(RGB_CHANNEL_INFO_NS@.len() != RGB_CHANNEL_INFO_PENDING_NS@.len());
    assert(RGB_PAYMENT_INFO_INBOUND_NS@.len() != RGB_PAYMENT_INFO_OUTBOUND_NS@.len());
}

} // verus!
