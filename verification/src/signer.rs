//! The node's side of the external signer protocol: the requests it sends,
//! how it reads the signer's answers (with the fallbacks LDK needs when an
//! answer is missing or malformed), and the seed material it derives.
use vstd::prelude::*;
use vstd::utf8::{decode_utf8, encode_utf8, valid_utf8};
use bitcoin::secp256k1::ecdh::SharedSecret;
use bitcoin::secp256k1::ecdsa::{RecoverableSignature, RecoveryId, Signature};
use bitcoin::secp256k1::{schnorr, PublicKey};
use crate::bootstrap::{BootstrapData, RlnSignerError};
use crate::hex::{decode_hex, hex_decode, hex_lower, is_hex_string, lower_hex_string};
use crate::text::decimal;
use crate::json::{
    json_bool, json_entries, json_map_insert, json_map_new, json_number, json_object_string,
    json_string, json_text, key_lt, keys_below, lemma_key_lt_transitive, object_text,
    plain_json_text, JsonEntries,
};
use serde_json::Value;
use bitcoin::hashes::Hash as BitcoinHash;
use bitcoin::psbt::ExtractTxError;
use bitcoin::{Psbt, ScriptBuf, Transaction, Txid};
use lightning::ln::script::ShutdownScript;

verus! {

#[verifier::external_type_specification]
#[verifier::external_body]
pub struct ExSignature(Signature);

#[verifier::external_type_specification]
#[verifier::external_body]
pub struct ExRecoverableSignature(RecoverableSignature);

#[verifier::external_type_specification]
#[verifier::external_body]
pub struct ExRecoveryId(RecoveryId);

#[verifier::external_type_specification]
#[verifier::external_body]
pub struct ExSchnorrSignature(schnorr::Signature);

#[verifier::external_type_specification]
#[verifier::external_body]
pub struct ExPublicKey(PublicKey);

#[verifier::external_type_specification]
#[verifier::external_body]
pub struct ExSharedSecret(SharedSecret);

#[verifier::external_type_specification]
#[verifier::external_body]
pub struct ExPsbt(Psbt);

#[verifier::external_type_specification]
#[verifier::external_body]
pub struct ExTransaction(Transaction);

#[verifier::external_type_specification]
#[verifier::external_body]
pub struct ExShutdownScript(ShutdownScript);

/// Big-endian value of a byte string.
pub open spec fn be_value(b: Seq<u8>) -> nat
    decreases b.len(),
{
    if b.len() == 0 {
        0
    } else {
        be_value(b.drop_last()) * 256 + b.last() as nat
    }
}

/// Order of the secp256k1 group.
pub open spec fn curve_order() -> nat {
    0xFFFFFFFFFFFFFFFFFFFFFFFFFFFFFFFEBAAEDCE6AF48A03BBFD25E8CD0364141nat
}

/// The compact form libsecp256k1 accepts: 64 bytes, each 32-byte half a
/// big-endian scalar below the group order.
pub open spec fn compact_signature_ok(b: Seq<u8>) -> bool {
    &&& b.len() == 64
    &&& be_value(b.subrange(0, 32)) < curve_order()
    &&& be_value(b.subrange(32, 64)) < curve_order()
}

/// What `secp256k1::ecdsa::Signature::from_der` gives for `b`.
pub uninterp spec fn der_parse(b: Seq<u8>) -> Option<Signature>;

/// What `secp256k1::ecdsa::Signature::from_compact` gives for `b`.
pub uninterp spec fn compact_parse(b: Seq<u8>) -> Option<Signature>;

/// What `secp256k1::ecdsa::RecoveryId::from_i32` gives for `id`.
pub uninterp spec fn recovery_id_parse(id: i32) -> Option<RecoveryId>;

/// What `secp256k1::ecdsa::RecoverableSignature::from_compact` gives for
/// `b` and the recovery id `id`.
pub uninterp spec fn recoverable_parse(b: Seq<u8>, id: RecoveryId) -> Option<RecoverableSignature>;

/// What `secp256k1::schnorr::Signature::from_slice` gives for `b`.
pub uninterp spec fn schnorr_parse(b: Seq<u8>) -> Option<schnorr::Signature>;

/// What `secp256k1::PublicKey::from_slice` gives for `b`.
pub uninterp spec fn public_key_parse(b: Seq<u8>) -> Option<PublicKey>;

/// What `secp256k1::ecdh::SharedSecret::from_slice` gives for `b`.
pub uninterp spec fn shared_secret_parse(b: Seq<u8>) -> Option<SharedSecret>;

/// `secp256k1::ecdsa::Signature::from_der`: the parse of `b`, which the
/// library's strict DER parser decides; empty input is rejected.
#[verifier::external_body]
fn signature_from_der(b: &[u8]) -> (r: Option<Signature>)
    ensures
        r == der_parse(b@),
        b@.len() == 0 ==> r is None,
{
    Signature::from_der(b).ok()
}

/// `secp256k1::ecdsa::Signature::from_compact`: the parse of `b`; it
/// succeeds exactly on 64 bytes whose halves are both below the group order.
#[verifier::external_body]
fn signature_from_compact(b: &[u8]) -> (r: Option<Signature>)
    ensures
        r == compact_parse(b@),
        r is Some <==> compact_signature_ok(b@),
{
    Signature::from_compact(b).ok()
}

/// `secp256k1::ecdsa::RecoveryId::from_i32`: accepts exactly `0..=3`.
#[verifier::external_body]
fn recovery_id_from_i32(id: i32) -> (r: Option<RecoveryId>)
    ensures
        r == recovery_id_parse(id),
        r is Some <==> 0 <= id <= 3,
{
    RecoveryId::from_i32(id).ok()
}

/// `secp256k1::ecdsa::RecoverableSignature::from_compact` with a valid
/// recovery id: the parse of `b` under `id`; it succeeds exactly on 64
/// bytes whose halves are both below the group order.
#[verifier::external_body]
fn recoverable_signature_from_compact(b: &[u8], id: RecoveryId) -> (r: Option<
    RecoverableSignature,
>)
    ensures
        r == recoverable_parse(b@, id),
        r is Some <==> compact_signature_ok(b@),
{
    RecoverableSignature::from_compact(b, id).ok()
}

/// `secp256k1::schnorr::Signature::from_slice`: the parse of `b`; accepts
/// exactly 64 bytes.
#[verifier::external_body]
fn schnorr_signature_from_slice(b: &[u8]) -> (r: Option<schnorr::Signature>)
    ensures
        r == schnorr_parse(b@),
        r is Some <==> b@.len() == 64,
{
    schnorr::Signature::from_slice(b).ok()
}

/// `secp256k1::PublicKey::from_slice`: the parse of `b`, which the
/// library's public key parser decides.
#[verifier::external_body]
fn public_key_from_slice(b: &[u8]) -> (r: Option<PublicKey>)
    ensures
        r == public_key_parse(b@),
{
    PublicKey::from_slice(b).ok()
}

/// `secp256k1::ecdh::SharedSecret::from_slice`: the parse of `b`; accepts
/// exactly 32 bytes.
#[verifier::external_body]
fn shared_secret_from_slice(b: &[u8]) -> (r: Option<SharedSecret>)
    ensures
        r == shared_secret_parse(b@),
        r is Some <==> b@.len() == 32,
{
    SharedSecret::from_slice(b).ok()
}

/// `String::from_utf8`: succeeds exactly on valid UTF-8, with the decoded text.
#[verifier::external_body]
fn string_from_utf8(v: Vec<u8>) -> (r: Option<String>)
    ensures
        r is Some <==> valid_utf8(v@),
        r matches Some(s) ==> s@ == decode_utf8(v@),
{
    String::from_utf8(v).ok()
}

/// What `<Psbt as FromStr>::from_str` of `bitcoin` gives for the text `s`.
pub uninterp spec fn psbt_parse(s: Seq<char>) -> Option<Psbt>;

/// `<Psbt as FromStr>::from_str` of `bitcoin`: the parse of the text
/// (base64 of a serialized PSBT).
#[verifier::external_body]
fn psbt_from_str(s: &str) -> (r: Option<Psbt>)
    ensures
        r == psbt_parse(s@),
{
    <Psbt as std::str::FromStr>::from_str(s).ok()
}

/// The text `Psbt`'s `Display` of `bitcoin` writes for `p`.
pub uninterp spec fn psbt_display(p: Psbt) -> Seq<char>;

/// `Psbt`'s `Display` of `bitcoin` (base64 of its serialization).
#[verifier::external_body]
fn psbt_to_string(p: &Psbt) -> (r: String)
    ensures
        r@ == psbt_display(*p),
{
    p.to_string()
}

/// What `<ShutdownScript as TryFrom<ScriptBuf>>::try_from` of `lightning`
/// gives for the script `b` (BOLT 2 compliance under the init features LDK
/// provides by default).
pub uninterp spec fn shutdown_script_parse(b: Seq<u8>) -> Option<ShutdownScript>;

/// A version 0 witness program script: P2WPKH (`OP_0`, a 20-byte push) or
/// P2WSH (`OP_0`, a 32-byte push).
pub open spec fn segwit_v0_script(b: Seq<u8>) -> bool {
    ||| b.len() == 22 && b[0] == 0 && b[1] == 20
    ||| b.len() == 34 && b[0] == 0 && b[1] == 32
}

/// `<ShutdownScript as TryFrom<ScriptBuf>>::try_from` of `lightning`: the
/// outcome for the script; P2WPKH and P2WSH scripts are always accepted.
#[verifier::external_body]
fn shutdown_script_from_bytes(b: Vec<u8>) -> (r: Option<ShutdownScript>)
    ensures
        r == shutdown_script_parse(b@),
        segwit_v0_script(b@) ==> r is Some,
{
    ShutdownScript::try_from(ScriptBuf::from_bytes(b)).ok()
}

/// How extracting the final transaction from a signed PSBT went.
pub enum ExtractedTx {
    /// The transaction was extracted.
    Extracted(Transaction),
    /// Some input lacks value information; the transaction is still returned.
    MissingInputValue(Transaction),
    /// The fee rate is absurd or the inputs are worth less than the outputs.
    Refused,
}

/// What `Psbt::extract_tx` of `bitcoin` gives for `p`, its error variants
/// told apart.
pub uninterp spec fn extraction(p: Psbt) -> ExtractedTx;

/// `Psbt::extract_tx` of `bitcoin`, its error variants told apart: the
/// outcome for the PSBT.
#[verifier::external_body]
fn extract_tx(psbt: Psbt) -> (r: ExtractedTx)
    ensures
        r == extraction(psbt),
{
    match psbt.extract_tx() {
        Ok(tx) => ExtractedTx::Extracted(tx),
        Err(ExtractTxError::MissingInputValue { tx }) => ExtractedTx::MissingInputValue(tx),
        Err(_) => ExtractedTx::Refused,
    }
}

/// Which node key a request is about.
#[derive(Debug, Clone, PartialEq, Eq)]
pub enum Recipient {
    Node,
    PhantomNode,
}

pub open spec fn recipient_label_spec(r: Recipient) -> Seq<char> {
    match r {
        Recipient::Node => "node"@,
        Recipient::PhantomNode => "phantom"@,
    }
}

/// Node-level requests to the external signer.
#[derive(Debug, Clone, PartialEq, Eq)]
pub enum NodeRequest {
    Ecdh { recipient: String, other_key: String, tweak: Option<String> },
    SignInvoice { hrp: String, u5bytes_hex: String },
    SignBolt12Invoice { invoice: String },
    SignGossipMessage { message_hex: String },
    SignMessage { message: String },
}

/// Node-level answers of the external signer.
#[derive(Debug, Clone, PartialEq, Eq)]
pub enum NodeResponse {
    Ecdh { shared_secret_hex: String },
    RecoverableSignature { signature_hex: String, recovery_id: u32 },
    Signature { signature_hex: String },
}

/// Answers of the external signer; `Other` stands for any answer of another
/// kind.
#[derive(Debug, Clone, PartialEq, Eq)]
pub enum SignerResponse {
    Bootstrap(BootstrapData),
    Node(NodeResponse),
    Other,
}

/// Requests the node makes to the signer backend besides the node-level
/// signing requests (`NodeRequest`).
#[derive(Debug, Clone, PartialEq, Eq)]
pub enum BackendRequest {
    /// The node id of the recipient with this label.
    NodeGetNodeId { recipient: String },
    /// The destination script for a channel, by its keys id in hex.
    NodeGetDestinationScript { channel_keys_id_hex: String },
    /// A fresh channel keys id.
    GenerateChannelKeysId { inbound: bool, channel_value_satoshis: u64, user_channel_id: u128 },
    /// A channel signer for a channel, by its keys id in hex.
    DeriveChannelSigner { channel_value_satoshis: u64, channel_keys_id_hex: String },
    /// Signing of a PSBT spending LDK's outputs, described one JSON text each.
    SignSpendableOutputsPsbt { descriptors: Vec<String>, psbt: String },
    /// Signing of an RGB PSBT.
    SignRgbPsbt { descriptors: Vec<String>, psbt: String },
}

/// The node id request for a recipient.
pub fn get_node_id_request(recipient: &Recipient) -> (r: BackendRequest)
    ensures
        r matches BackendRequest::NodeGetNodeId { recipient: l } && l@ == recipient_label_spec(
            *recipient,
        ),
{
    BackendRequest::NodeGetNodeId {
        recipient: String::from_str(ExternalSigner::recipient_label(recipient)),
    }
}

/// The destination script request for a channel keys id.
pub fn get_destination_script_request(channel_keys_id: &[u8; 32]) -> (r: BackendRequest)
    ensures
        r matches BackendRequest::NodeGetDestinationScript { channel_keys_id_hex: h } && h@
            == hex_lower(channel_keys_id@),
{
    BackendRequest::NodeGetDestinationScript {
        channel_keys_id_hex: lower_hex_string(channel_keys_id.as_slice()),
    }
}

/// The channel keys id request LDK's key provider makes: the channel value
/// is not known yet and is sent as zero.
pub fn generate_channel_keys_id_request(inbound: bool, user_channel_id: u128) -> (r: BackendRequest)
    ensures
        r == (BackendRequest::GenerateChannelKeysId {
            inbound,
            channel_value_satoshis: 0,
            user_channel_id,
        }),
{
    BackendRequest::GenerateChannelKeysId { inbound, channel_value_satoshis: 0, user_channel_id }
}

/// The channel signer request for a channel keys id, with the channel value
/// sent as zero.
pub fn derive_channel_signer_request(channel_keys_id: &[u8; 32]) -> (r: BackendRequest)
    ensures
        r matches BackendRequest::DeriveChannelSigner {
            channel_value_satoshis: v,
            channel_keys_id_hex: h,
        } && v == 0 && h@ == hex_lower(channel_keys_id@),
{
    BackendRequest::DeriveChannelSigner {
        channel_value_satoshis: 0,
        channel_keys_id_hex: lower_hex_string(channel_keys_id.as_slice()),
    }
}

/// The ECDH request: recipient label, the other party's serialized key and
/// the optional tweak, both in lower-case hex.
pub fn ecdh_request(recipient: &Recipient, other_key: &[u8; 33], tweak: Option<&[u8; 32]>) -> (r:
    NodeRequest)
    ensures
        r matches NodeRequest::Ecdh { recipient: rl, other_key: ok, tweak: t } && rl@
            == recipient_label_spec(*recipient) && ok@ == hex_lower(other_key@) && match tweak {
            None => t is None,
            Some(tw) => t matches Some(th) && th@ == hex_lower(tw@),
        },
{
    let tweak_hex = match tweak {
        None => None,
        Some(tw) => Some(lower_hex_string(tw.as_slice())),
    };
    NodeRequest::Ecdh {
        recipient: String::from_str(ExternalSigner::recipient_label(recipient)),
        other_key: lower_hex_string(other_key.as_slice()),
        tweak: tweak_hex,
    }
}

/// The invoice signing request: the human-readable part and the signable
/// hash in lower-case hex.
pub fn sign_invoice_request(hrp: String, signable_hash: &[u8; 32]) -> (r: NodeRequest)
    ensures
        r matches NodeRequest::SignInvoice { hrp: h, u5bytes_hex: x } && h@ == hrp@ && x@
            == hex_lower(signable_hash@),
{
    NodeRequest::SignInvoice { hrp, u5bytes_hex: lower_hex_string(signable_hash.as_slice()) }
}

/// The BOLT 12 invoice signing request: the encoded invoice in hex.
pub fn sign_bolt12_invoice_request(encoded: &[u8]) -> (r: NodeRequest)
    requires
        encoded@.len() * 2 <= usize::MAX,
    ensures
        r matches NodeRequest::SignBolt12Invoice { invoice } && invoice@ == hex_lower(encoded@),
{
    NodeRequest::SignBolt12Invoice { invoice: lower_hex_string(encoded) }
}

/// The gossip signing request: the encoded message in hex.
pub fn sign_gossip_message_request(encoded: &[u8]) -> (r: NodeRequest)
    requires
        encoded@.len() * 2 <= usize::MAX,
    ensures
        r matches NodeRequest::SignGossipMessage { message_hex } && message_hex@ == hex_lower(
            encoded@,
        ),
{
    NodeRequest::SignGossipMessage { message_hex: lower_hex_string(encoded) }
}

/// The message signing request; refused when the message is not UTF-8.
pub fn sign_message_request(msg: &[u8]) -> (r: Result<NodeRequest, ()>)
    ensures
        r is Ok <==> valid_utf8(msg@),
        r matches Ok(NodeRequest::SignMessage { message }) ==> message@ == decode_utf8(msg@),
        r matches Ok(req) ==> req is SignMessage,
{
    let mut v: Vec<u8> = Vec::new();
    v.extend_from_slice(msg);
    assert(v@ =~= msg@);
    match string_from_utf8(v) {
        Some(message) => Ok(NodeRequest::SignMessage { message }),
        None => Err(()),
    }
}

/// Bytes denoted by a hex answer, if it is hex.
pub open spec fn hex_answer(h: Seq<char>) -> Option<Seq<u8>> {
    if is_hex_string(h) {
        Some(hex_decode(h))
    } else {
        None
    }
}

/// Thirty-two zero bytes.
pub open spec fn zero32() -> Seq<u8> {
    Seq::new(32, |i: int| 0u8)
}

/// The 32 bytes LDK gets from a hex answer: the first 32 decoded bytes, or
/// zeros when the answer is missing, not hex, or shorter than 32 bytes.
pub open spec fn bytes32_from_answer(answer: Result<String, RlnSignerError>) -> Seq<u8> {
    match answer {
        Err(_) => zero32(),
        Ok(h) => if is_hex_string(h@) && hex_decode(h@).len() >= 32 {
            hex_decode(h@).take(32)
        } else {
            zero32()
        },
    }
}

fn first_32_bytes(answer: Result<String, RlnSignerError>) -> (r: [u8; 32])
    ensures
        r@ == bytes32_from_answer(answer),
{
    let mut out = [0u8; 32];
    assert(out@ =~= zero32());
    let h = match answer {
        Ok(h) => h,
        Err(_) => return out,
    };
    let bytes = match decode_hex(h.as_str()) {
        Ok(b) => b,
        Err(_) => return out,
    };
    if bytes.len() >= 32 {
        let mut i: usize = 0;
        while i < 32
            invariant
                bytes@.len() >= 32,
                i <= 32,
                forall|j: int| 0 <= j < i ==> out@[j] == bytes@[j],
            decreases 32 - i,
        {
            out[i] = bytes[i];
            i = i + 1;
        }
        assert(out@ =~= bytes@.take(32));
    }
    out
}

/// The 32 bytes LDK gets from an answer are the answer's first 32 decoded
/// bytes in their order when it is hex for at least 32 bytes, and zero bytes
/// otherwise.
pub proof fn lemma_answer_bytes_in_order(answer: Result<String, RlnSignerError>)
    ensures
        bytes32_from_answer(answer).len() == 32,
        forall|i: int|
            0 <= i < 32 ==> #[trigger] bytes32_from_answer(answer)[i] == match answer {
                Ok(h) => if is_hex_string(h@) && hex_decode(h@).len() >= 32 {
                    hex_decode(h@)[i]
                } else {
                    0u8
                },
                Err(_) => 0u8,
            },
{
}

/// Local seed material: the bytes of the signer's node id folded into 32
/// bytes by XOR, byte `i` into position `i % 32`; all zeros when the
/// bootstrap record is unavailable.
pub open spec fn xor_fold(bytes: Seq<u8>) -> Seq<u8>
    decreases bytes.len(),
{
    if bytes.len() == 0 {
        zero32()
    } else {
        let prev = xor_fold(bytes.drop_last());
        let j = (bytes.len() - 1) % 32;
        prev.update(j, prev[j] ^ bytes.last())
    }
}

proof fn lemma_xor_fold_len(bytes: Seq<u8>)
    ensures
        xor_fold(bytes).len() == 32,
    decreases bytes.len(),
{
    if bytes.len() > 0 {
        lemma_xor_fold_len(bytes.drop_last());
    }
}

/// A node id of at most 32 bytes is its own seed material: byte `i` is the
/// id's byte `i`, unchanged, and the remaining bytes are zero.
pub proof fn lemma_xor_fold_short(bytes: Seq<u8>)
    requires
        bytes.len() <= 32,
    ensures
        xor_fold(bytes).len() == 32,
        forall|i: int| 0 <= i < bytes.len() ==> #[trigger] xor_fold(bytes)[i] == bytes[i],
        forall|i: int| bytes.len() <= i < 32 ==> #[trigger] xor_fold(bytes)[i] == 0u8,
    decreases bytes.len(),
{
    lemma_xor_fold_len(bytes);
    if bytes.len() > 0 {
        let prev = bytes.drop_last();
        lemma_xor_fold_short(prev);
        let x = bytes.last();
        let z = xor_fold(prev)[prev.len() as int];
        assert(z == 0u8);
        assert(z ^ x == x) by (bit_vector)
            requires
                z == 0u8,
        ;
    }
}

/// Folding is blockwise: after a whole number of 32-byte blocks `a`, the
/// material of `a` followed by `b` is the XOR, byte by byte, of the material
/// of `a` and that of `b`.
pub proof fn lemma_xor_fold_blocks(a: Seq<u8>, b: Seq<u8>)
    requires
        a.len() % 32 == 0,
    ensures
        forall|k: int|
            0 <= k < 32 ==> #[trigger] xor_fold(a + b)[k] == xor_fold(a)[k] ^ xor_fold(b)[k],
    decreases b.len(),
{
    lemma_xor_fold_len(a);
    lemma_xor_fold_len(b);
    lemma_xor_fold_len(a + b);
    if b.len() == 0 {
        assert(a + b =~= a);
        assert forall|k: int| 0 <= k < 32 implies #[trigger] xor_fold(a + b)[k] == xor_fold(a)[k]
            ^ xor_fold(b)[k] by {
            let p = xor_fold(a)[k];
            assert(xor_fold(b)[k] == 0u8);
            assert(p ^ 0u8 == p) by (bit_vector);
        }
    } else {
        let bp = b.drop_last();
        let x = b.last();
        lemma_xor_fold_blocks(a, bp);
        lemma_xor_fold_len(bp);
        lemma_xor_fold_len(a + bp);
        assert((a + b).drop_last() =~= a + bp);
        assert((a + b).last() == x);
        let j = (b.len() - 1) % 32;
        assert((a + b).len() - 1 == a.len() + (b.len() - 1));
        assert(((a + b).len() - 1) % 32 == j) by {
            vstd::arithmetic::div_mod::lemma_mod_adds(a.len() as int, b.len() - 1, 32);
        }
        assert forall|k: int| 0 <= k < 32 implies #[trigger] xor_fold(a + b)[k] == xor_fold(a)[k]
            ^ xor_fold(b)[k] by {
            let p = xor_fold(a)[k];
            let q = xor_fold(bp)[k];
            if k == j {
                assert(xor_fold(a + bp)[k] == p ^ q);
                assert((p ^ q) ^ x == p ^ (q ^ x)) by (bit_vector);
            }
        }
    }
}

/// Channel public keys in hex, as the signer reports them.
#[derive(Debug, Clone, PartialEq, Eq)]
pub struct ChannelPublicKeys {
    pub funding_pubkey_hex: String,
    pub revocation_basepoint_hex: String,
    pub payment_point_hex: String,
    pub delayed_payment_basepoint_hex: String,
    pub htlc_basepoint_hex: String,
}

/// What a channel signer is built from.
#[derive(Debug, Clone, PartialEq, Eq)]
pub struct ChannelSignerSetup {
    pub channel_keys_id_hex: String,
    pub channel_signer_state_hex: String,
    pub channel_pubkeys: ChannelPublicKeys,
}

/// Placeholder key text: `02` repeated 33 times.
pub open spec fn placeholder_key_hex() -> Seq<char> {
    Seq::new(66, |i: int| if i % 2 == 0 { '0' } else { '2' })
}

fn placeholder_key() -> (s: String)
    ensures
        s@ == placeholder_key_hex(),
{
    let mut s = String::new();
    let mut i: usize = 0;
    while i < 33
        invariant
            i <= 33,
            s@ =~= Seq::new(2 * i as nat, |k: int| if k % 2 == 0 { '0' } else { '2' }),
        decreases 33 - i,
    {
        s.append("02");
        proof {
            reveal_strlit("02");
        }
        i = i + 1;
    }
    s
}

/// RGB wallet account of the signer.
#[derive(Debug, Clone, PartialEq, Eq)]
pub struct RgbWalletAccountInfo {
    pub account_xpub_vanilla: String,
    pub account_xpub_colored: String,
    pub master_fingerprint: String,
    pub vanilla_keychain: Option<String>,
}

/// Kinds of outputs LDK asks to spend.
#[derive(Debug, Clone, PartialEq, Eq)]
pub enum SpendableOutputKind {
    StaticOutput,
    DelayedPaymentOutput,
    StaticPaymentOutput,
}

/// An output LDK asks to spend: its kind, outpoint and value.
#[derive(Debug, Clone, PartialEq, Eq)]
pub struct SpendableDescriptor {
    pub kind: SpendableOutputKind,
    pub txid: [u8; 32],
    pub outnum: u16,
    pub amount_sat: u64,
}

/// Key index the signer uses for an output kind.
pub open spec fn key_index(kind: SpendableOutputKind) -> nat {
    match kind {
        SpendableOutputKind::StaticOutput => 1,
        _ => 0,
    }
}

/// `Txid::from_byte_array(bytes).to_string()` of `bitcoin`: a transaction id
/// is displayed as the lower-case hex of its bytes in reverse order.
#[verifier::external_body]
fn txid_string(bytes: [u8; 32]) -> (s: String)
    ensures
        s@ == hex_lower(bytes@.reverse()),
{
    Txid::from_byte_array(bytes).to_string()
}

/// The fields describing an output to the signer, in key order, each with
/// the text of its value.
pub open spec fn descriptor_entries(d: SpendableDescriptor) -> JsonEntries {
    seq![
        ("amount"@, decimal(d.amount_sat as nat)),
        ("is_in_coinbase"@, "false"@),
        ("is_p2sh"@, "false"@),
        ("keyindex"@, decimal(key_index(d.kind))),
        ("outnum"@, decimal(d.outnum as nat)),
        ("script_hex"@, "\"\""@),
        ("txid"@, "\""@ + hex_lower(d.txid@.reverse()) + "\""@),
    ]
}

/// JSON text describing an output to the signer.
pub open spec fn descriptor_json(d: SpendableDescriptor) -> Seq<char> {
    object_text(descriptor_entries(d))
}

proof fn lemma_descriptor_keys()
    ensures
        key_lt("amount"@, "is_in_coinbase"@),
        key_lt("is_in_coinbase"@, "is_p2sh"@),
        key_lt("is_p2sh"@, "keyindex"@),
        key_lt("keyindex"@, "outnum"@),
        key_lt("outnum"@, "script_hex"@),
        key_lt("script_hex"@, "txid"@),
        plain_json_text("amount"@),
        plain_json_text("is_in_coinbase"@),
        plain_json_text("is_p2sh"@),
        plain_json_text("keyindex"@),
        plain_json_text("outnum"@),
        plain_json_text("script_hex"@),
        plain_json_text("txid"@),
{
    reveal_strlit("amount");
    reveal_strlit("is_in_coinbase");
    reveal_strlit("is_p2sh");
    reveal_strlit("keyindex");
    reveal_strlit("outnum");
    reveal_strlit("script_hex");
    reveal_strlit("txid");
    reveal_with_fuel(key_lt, 4);
}

proof fn lemma_hex_lower_plain(b: Seq<u8>)
    ensures
        plain_json_text(hex_lower(b)),
{
}

proof fn lemma_keys_below_push(es: JsonEntries, k1: Seq<char>, v: Seq<char>, k2: Seq<char>)
    requires
        keys_below(es, k1),
        key_lt(k1, k2),
    ensures
        keys_below(es.push((k1, v)), k2),
{
    assert forall|i: int| 0 <= i < es.push((k1, v)).len() implies key_lt(
        #[trigger] es.push((k1, v))[i].0,
        k2,
    ) by {
        if i < es.len() {
            lemma_key_lt_transitive(es[i].0, k1, k2);
        }
    }
}

fn put(m: &mut serde_json::Map<String, Value>, k: &str, v: Value)
    requires
        keys_below(json_entries(*old(m)), k@),
    ensures
        json_entries(*final(m)) == json_entries(*old(m)).push((k@, json_text(v))),
{
    json_map_insert(m, String::from_str(k), v);
}

fn descriptor_payload(d: &SpendableDescriptor) -> (s: String)
    ensures
        s@ == descriptor_json(*d),
{
    proof {
        lemma_descriptor_keys();
        lemma_hex_lower_plain(d.txid@.reverse());
        reveal_strlit("\"\"");
        reveal_strlit("\"");
    }
    let k: u64 = match d.kind {
        SpendableOutputKind::StaticOutput => 1,
        _ => 0,
    };
    let mut m = json_map_new();
    let ghost e0 = json_entries(m);
    let v = json_number(d.amount_sat);
    put(&mut m, "amount", v);
    let ghost e1 = json_entries(m);
    proof { lemma_keys_below_push(e0, "amount"@, json_text(v), "is_in_coinbase"@); }
    let v = json_bool(false);
    put(&mut m, "is_in_coinbase", v);
    let ghost e2 = json_entries(m);
    proof { lemma_keys_below_push(e1, "is_in_coinbase"@, json_text(v), "is_p2sh"@); }
    let v = json_bool(false);
    put(&mut m, "is_p2sh", v);
    let ghost e3 = json_entries(m);
    proof { lemma_keys_below_push(e2, "is_p2sh"@, json_text(v), "keyindex"@); }
    let v = json_number(k);
    put(&mut m, "keyindex", v);
    let ghost e4 = json_entries(m);
    proof { lemma_keys_below_push(e3, "keyindex"@, json_text(v), "outnum"@); }
    let v = json_number(d.outnum as u64);
    put(&mut m, "outnum", v);
    let ghost e5 = json_entries(m);
    proof { lemma_keys_below_push(e4, "outnum"@, json_text(v), "script_hex"@); }
    let v = json_string(String::new());
    put(&mut m, "script_hex", v);
    proof { lemma_keys_below_push(e5, "script_hex"@, json_text(v), "txid"@); }
    let v = json_string(txid_string(d.txid));
    put(&mut m, "txid", v);
    assert(k as nat == key_index(d.kind));
    assert(("\""@ + Seq::<char>::empty() + "\""@) =~= "\"\""@);
    assert(json_entries(m) =~= descriptor_entries(*d));
    json_object_string(m)
}

/// The ECDSA signature the bytes `d` denote: their DER parse when there is
/// one, else their compact parse.
pub open spec fn ecdsa_signature_of(d: Seq<u8>) -> Option<Signature> {
    if der_parse(d) is Some {
        der_parse(d)
    } else {
        compact_parse(d)
    }
}

/// Node-side logic of the external signer protocol: reading the signer's
/// answers and deriving what LDK needs from them.
pub struct ExternalSigner;

impl ExternalSigner {
    /// Protocol label of a recipient.
    pub fn recipient_label(recipient: &Recipient) -> (s: &'static str)
        ensures
            s@ == recipient_label_spec(*recipient),
    {
        match recipient {
            Recipient::Node => "node",
            Recipient::PhantomNode => "phantom",
        }
    }

    /// Reads a signature given in hex, DER first, then compact.
    pub fn parse_signature(signature_hex: &str) -> (r: Result<Signature, ()>)
        ensures
            r is Ok <==> is_hex_string(signature_hex@) && (der_parse(hex_decode(signature_hex@)) is Some
                || compact_signature_ok(hex_decode(signature_hex@))),
            r matches Ok(s) ==> Some(s) == ecdsa_signature_of(hex_decode(signature_hex@)),
    {
        let bytes = match decode_hex(signature_hex) {
            Ok(b) => b,
            Err(_) => return Err(()),
        };
        match signature_from_der(bytes.as_slice()) {
            Some(s) => Ok(s),
            None => match signature_from_compact(bytes.as_slice()) {
                Some(s) => Ok(s),
                None => Err(()),
            },
        }
    }

    /// Reads the answer to an ECDH request: a 32-byte shared secret in hex.
    pub fn ecdh(response: Result<SignerResponse, RlnSignerError>) -> (r: Result<SharedSecret, ()>)
        ensures
            r is Ok <==> (response matches Ok(SignerResponse::Node(NodeResponse::Ecdh { shared_secret_hex: h }))
                && is_hex_string(h@) && hex_decode(h@).len() == 32),
            r matches Ok(s) ==> (response matches Ok(SignerResponse::Node(NodeResponse::Ecdh { shared_secret_hex: h }))
                && Some(s) == shared_secret_parse(hex_decode(h@))),
    {
        let h = match response {
            Ok(SignerResponse::Node(NodeResponse::Ecdh { shared_secret_hex })) => shared_secret_hex,
            _ => return Err(()),
        };
        let bytes = match decode_hex(h.as_str()) {
            Ok(b) => b,
            Err(_) => return Err(()),
        };
        if bytes.len() != 32 {
            return Err(());
        }
        match shared_secret_from_slice(bytes.as_slice()) {
            Some(s) => Ok(s),
            None => Err(()),
        }
    }

    /// Reads the answer to an invoice signing request: a 64-byte compact
    /// recoverable signature in hex and a recovery id in `0..=3`.
    pub fn sign_invoice(response: Result<SignerResponse, RlnSignerError>) -> (r: Result<
        RecoverableSignature,
        (),
    >)
        ensures
            r is Ok <==> (response matches Ok(SignerResponse::Node(NodeResponse::RecoverableSignature { signature_hex: h, recovery_id: id })) && is_hex_string(h@) && hex_decode(h@).len() == 64 && id <= 3
                && compact_signature_ok(hex_decode(h@))),
            r matches Ok(s) ==> (response matches Ok(SignerResponse::Node(NodeResponse::RecoverableSignature { signature_hex: h, recovery_id: id }))
                && recovery_id_parse(id as i32) matches Some(rid) && Some(s) == recoverable_parse(hex_decode(h@), rid)),
    {
        let (h, id) = match response {
            Ok(SignerResponse::Node(NodeResponse::RecoverableSignature { signature_hex, recovery_id })) => (
                signature_hex,
                recovery_id,
            ),
            _ => return Err(()),
        };
        let bytes = match decode_hex(h.as_str()) {
            Ok(b) => b,
            Err(_) => return Err(()),
        };
        if bytes.len() != 64 {
            return Err(());
        }
        if id > 3 {
            return Err(());
        }
        let rec_id = match recovery_id_from_i32(id as i32) {
            Some(r) => r,
            None => return Err(()),
        };
        match recoverable_signature_from_compact(bytes.as_slice(), rec_id) {
            Some(s) => Ok(s),
            None => Err(()),
        }
    }

    /// Reads the answer to a BOLT 12 invoice signing request: a 64-byte Schnorr
    /// signature in hex.
    pub fn sign_bolt12_invoice(response: Result<SignerResponse, RlnSignerError>) -> (r: Result<
        schnorr::Signature,
        (),
    >)
        ensures
            r is Ok <==> (response matches Ok(SignerResponse::Node(NodeResponse::Signature { signature_hex: h }))
                && is_hex_string(h@) && hex_decode(h@).len() == 64),
            r matches Ok(s) ==> (response matches Ok(SignerResponse::Node(NodeResponse::Signature { signature_hex: h }))
                && Some(s) == schnorr_parse(hex_decode(h@))),
    {
        let h = match response {
            Ok(SignerResponse::Node(NodeResponse::Signature { signature_hex })) => signature_hex,
            _ => return Err(()),
        };
        let bytes = match decode_hex(h.as_str()) {
            Ok(b) => b,
            Err(_) => return Err(()),
        };
        match schnorr_signature_from_slice(bytes.as_slice()) {
            Some(s) => Ok(s),
            None => Err(()),
        }
    }

    /// Reads the answer to a gossip signing request: an ECDSA signature in hex,
    /// DER or compact.
    pub fn sign_gossip_message(response: Result<SignerResponse, RlnSignerError>) -> (r: Result<
        Signature,
        (),
    >)
        ensures
            r is Ok <==> (response matches Ok(SignerResponse::Node(NodeResponse::Signature { signature_hex: h }))
                && is_hex_string(h@) && (der_parse(hex_decode(h@)) is Some
                || compact_signature_ok(hex_decode(h@)))),
            r matches Ok(s) ==> (response matches Ok(SignerResponse::Node(NodeResponse::Signature { signature_hex: h }))
                && Some(s) == ecdsa_signature_of(hex_decode(h@))),
    {
        match response {
            Ok(SignerResponse::Node(NodeResponse::Signature { signature_hex })) => Self::parse_signature(signature_hex.as_str()),
            _ => Err(()),
        }
    }

    /// Reads the answer to a message signing request: the signature text as sent.
    pub fn sign_message(response: Result<SignerResponse, RlnSignerError>) -> (r: Result<String, ()>)
        ensures
            match response {
                Ok(SignerResponse::Node(NodeResponse::Signature { signature_hex })) => r matches Ok(s) && s@
                    == signature_hex@,
                _ => r is Err,
            },
    {
        match response {
            Ok(SignerResponse::Node(NodeResponse::Signature { signature_hex })) => Ok(signature_hex),
            _ => Err(()),
        }
    }

    /// Reads the node id the signer reports: a public key in hex.
    pub fn get_node_id(response: Result<String, RlnSignerError>) -> (r: Result<PublicKey, ()>)
        ensures
            r is Ok <==> (response matches Ok(h) && is_hex_string(h@) && public_key_parse(
                hex_decode(h@),
            ) is Some),
            r matches Ok(k) ==> (response matches Ok(h) && Some(k) == public_key_parse(hex_decode(h@))),
    {
        let h = match response {
            Ok(h) => h,
            Err(_) => return Err(()),
        };
        let bytes = match decode_hex(h.as_str()) {
            Ok(b) => b,
            Err(_) => return Err(()),
        };
        match public_key_from_slice(bytes.as_slice()) {
            Some(k) => Ok(k),
            None => Err(()),
        }
    }

    /// Reads the destination script the signer reports in hex: its bytes.
    pub fn get_destination_script(response: Result<String, RlnSignerError>) -> (r: Result<Vec<u8>, ()>)
        ensures
            match response {
                Ok(h) => match hex_answer(h@) {
                    Some(b) => r matches Ok(v) && v@ == b,
                    None => r is Err,
                },
                Err(_) => r is Err,
            },
    {
        match response {
            Ok(h) => match decode_hex(h.as_str()) {
                Ok(b) => Ok(b),
                Err(_) => Err(()),
            },
            Err(_) => Err(()),
        }
    }

    /// Reads the shutdown script the signer reports in hex; refused unless
    /// LDK accepts it as a shutdown script.
    pub fn get_shutdown_scriptpubkey(response: Result<String, RlnSignerError>) -> (r: Result<
        ShutdownScript,
        (),
    >)
        ensures
            r is Ok <==> (response matches Ok(h) && is_hex_string(h@) && shutdown_script_parse(
                hex_decode(h@),
            ) is Some),
            r matches Ok(sc) ==> (response matches Ok(h) && Some(sc) == shutdown_script_parse(
                hex_decode(h@),
            )),
            response matches Ok(h) && is_hex_string(h@) && segwit_v0_script(hex_decode(h@))
                ==> r is Ok,
    {
        let bytes = match Self::get_destination_script(response) {
            Ok(b) => b,
            Err(_) => return Err(()),
        };
        match shutdown_script_from_bytes(bytes) {
            Some(s) => Ok(s),
            None => Err(()),
        }
    }

    /// Random bytes for LDK from the signer's hex answer (zeros as fallback).
    pub fn get_secure_random_bytes(answer: Result<String, RlnSignerError>) -> (r: [u8; 32])
        ensures
            r@ == bytes32_from_answer(answer),
            forall|i: int|
                0 <= i < 32 ==> #[trigger] r@[i] == match answer {
                    Ok(h) => if is_hex_string(h@) && hex_decode(h@).len() >= 32 {
                        hex_decode(h@)[i]
                    } else {
                        0u8
                    },
                    Err(_) => 0u8,
                },
    {
        proof {
            lemma_answer_bytes_in_order(answer);
        }
        first_32_bytes(answer)
    }

    /// Channel keys id for LDK from the signer's hex answer (zeros as fallback).
    pub fn generate_channel_keys_id(answer: Result<String, RlnSignerError>) -> (r: [u8; 32])
        ensures
            r@ == bytes32_from_answer(answer),
            forall|i: int|
                0 <= i < 32 ==> #[trigger] r@[i] == match answer {
                    Ok(h) => if is_hex_string(h@) && hex_decode(h@).len() >= 32 {
                        hex_decode(h@)[i]
                    } else {
                        0u8
                    },
                    Err(_) => 0u8,
                },
    {
        proof {
            lemma_answer_bytes_in_order(answer);
        }
        first_32_bytes(answer)
    }

    /// Deterministic local seed material for LDK's helper keys, derived from the
    /// signer's node id (not a signing secret).
    pub fn seed_material(bootstrap: Result<BootstrapData, RlnSignerError>) -> (r: [u8; 32])
        ensures
            match bootstrap {
                Ok(b) => r@ == xor_fold(encode_utf8(b.identity.node_id@)),
                Err(_) => r@ == zero32(),
            },
            match bootstrap {
                Ok(b) => encode_utf8(b.identity.node_id@).len() <= 32 ==> forall|i: int|
                    0 <= i < encode_utf8(b.identity.node_id@).len() ==> #[trigger] r@[i]
                        == encode_utf8(b.identity.node_id@)[i],
                Err(_) => true,
            },
    {
        let mut acc = [0u8; 32];
        assert(acc@ =~= zero32());
        let data = match bootstrap {
            Ok(d) => d,
            Err(_) => return acc,
        };
        proof {
            if encode_utf8(data.identity.node_id@).len() <= 32 {
                lemma_xor_fold_short(encode_utf8(data.identity.node_id@));
            }
        }
        let bytes = data.identity.node_id.as_str().as_bytes();
        let n = bytes.len();
        let mut i: usize = 0;
        while i < n
            invariant
                n == bytes@.len(),
                i <= n,
                acc@ == xor_fold(bytes@.take(i as int)),
            decreases n - i,
        {
            proof {
                lemma_xor_fold_len(bytes@.take(i as int));
                assert(bytes@.take(i as int + 1).drop_last() =~= bytes@.take(i as int));
            }
            let j = i % 32;
            acc[j] = acc[j] ^ bytes[i];
            i = i + 1;
            assert(acc@ =~= xor_fold(bytes@.take(i as int)));
        }
        assert(bytes@.take(n as int) =~= bytes@);
        acc
    }

    /// Builds a channel signer from the signer's derivation answer; when the
    /// signer cannot derive one, LDK still gets a signer with empty state and
    /// placeholder keys.
    pub fn derive_channel_signer(
        channel_keys_id: &[u8; 32],
        derived: Result<(String, ChannelPublicKeys), RlnSignerError>,
    ) -> (r: ChannelSignerSetup)
        ensures
            r.channel_keys_id_hex@ == hex_lower(channel_keys_id@),
            match derived {
                Ok((state, keys)) => r.channel_signer_state_hex == state && r.channel_pubkeys == keys,
                Err(_) => {
                    &&& r.channel_signer_state_hex@ == Seq::<char>::empty()
                    &&& r.channel_pubkeys.funding_pubkey_hex@ == placeholder_key_hex()
                    &&& r.channel_pubkeys.revocation_basepoint_hex@ == placeholder_key_hex()
                    &&& r.channel_pubkeys.payment_point_hex@ == placeholder_key_hex()
                    &&& r.channel_pubkeys.delayed_payment_basepoint_hex@ == placeholder_key_hex()
                    &&& r.channel_pubkeys.htlc_basepoint_hex@ == placeholder_key_hex()
                },
            },
    {
        let id_hex = lower_hex_string(channel_keys_id.as_slice());
        match derived {
            Ok((state, keys)) => ChannelSignerSetup {
                channel_keys_id_hex: id_hex,
                channel_signer_state_hex: state,
                channel_pubkeys: keys,
            },
            Err(_) => ChannelSignerSetup {
                channel_keys_id_hex: id_hex,
                channel_signer_state_hex: String::new(),
                channel_pubkeys: ChannelPublicKeys {
                    funding_pubkey_hex: placeholder_key(),
                    revocation_basepoint_hex: placeholder_key(),
                    payment_point_hex: placeholder_key(),
                    delayed_payment_basepoint_hex: placeholder_key(),
                    htlc_basepoint_hex: placeholder_key(),
                },
            },
        }
    }

    /// The RGB wallet account from the bootstrap record; empty fields when the
    /// record is unavailable.
    pub fn rgb_wallet_account(bootstrap: Result<BootstrapData, RlnSignerError>) -> (r:
        RgbWalletAccountInfo)
        ensures
            r.vanilla_keychain is None,
            match bootstrap {
                Ok(b) => {
                    &&& r.account_xpub_vanilla == b.identity.account_xpub_vanilla
                    &&& r.account_xpub_colored == b.identity.account_xpub_colored
                    &&& r.master_fingerprint == b.identity.master_fingerprint
                },
                Err(_) => {
                    &&& r.account_xpub_vanilla@ == Seq::<char>::empty()
                    &&& r.account_xpub_colored@ == Seq::<char>::empty()
                    &&& r.master_fingerprint@ == Seq::<char>::empty()
                },
            },
    {
        match bootstrap {
            Ok(b) => RgbWalletAccountInfo {
                account_xpub_vanilla: b.identity.account_xpub_vanilla,
                account_xpub_colored: b.identity.account_xpub_colored,
                master_fingerprint: b.identity.master_fingerprint,
                vanilla_keychain: None,
            },
            Err(_) => RgbWalletAccountInfo {
                account_xpub_vanilla: String::new(),
                account_xpub_colored: String::new(),
                master_fingerprint: String::new(),
                vanilla_keychain: None,
            },
        }
    }

    /// The descriptor part of a request to sign a PSBT spending LDK's outputs:
    /// one JSON text per output, in order.
    pub fn sign_spendable_outputs_payload(descriptors: &Vec<SpendableDescriptor>) -> (r: Vec<String>)
        ensures
            r@.len() == descriptors@.len(),
            forall|i: int| 0 <= i < r@.len() ==> #[trigger] r@[i]@ == descriptor_json(descriptors@[i]),
    {
        let mut r: Vec<String> = Vec::new();
        let n = descriptors.len();
        let mut i: usize = 0;
        while i < n
            invariant
                n == descriptors@.len(),
                i <= n,
                r@.len() == i,
                forall|j: int| 0 <= j < i ==> #[trigger] r@[j]@ == descriptor_json(descriptors@[j]),
            decreases n - i,
        {
            r.push(descriptor_payload(&descriptors[i]));
            i = i + 1;
        }
        r
    }

    /// The request to sign a PSBT spending LDK's outputs: the descriptor
    /// texts, in order, and the PSBT as text.
    pub fn sign_spendable_outputs_request(descriptors: &Vec<SpendableDescriptor>, psbt: &Psbt) -> (r:
        BackendRequest)
        ensures
            r matches BackendRequest::SignSpendableOutputsPsbt { descriptors: d, psbt: t } && t@
                == psbt_display(*psbt) && d@.len()
                == descriptors@.len() && forall|i: int|
                0 <= i < d@.len() ==> #[trigger] d@[i]@ == descriptor_json(descriptors@[i]),
    {
        BackendRequest::SignSpendableOutputsPsbt {
            descriptors: Self::sign_spendable_outputs_payload(descriptors),
            psbt: psbt_to_string(psbt),
        }
    }

    /// The request to sign an RGB PSBT: descriptors and PSBT are passed on as
    /// given; the backend's answer is the result.
    pub fn sign_rgb_psbt(descriptors: Vec<String>, psbt: String) -> (r: BackendRequest)
        ensures
            r == (BackendRequest::SignRgbPsbt { descriptors, psbt }),
    {
        BackendRequest::SignRgbPsbt { descriptors, psbt }
    }

    /// Reads the signer's answer to a PSBT signing request: the signed PSBT
    /// as text.
    pub fn read_signed_psbt(answer: Result<String, RlnSignerError>) -> (r: Result<Psbt, ()>)
        ensures
            r is Ok <==> (answer matches Ok(s) && psbt_parse(s@) is Some),
            r matches Ok(p) ==> (answer matches Ok(s) && Some(p) == psbt_parse(s@)),
    {
        match answer {
            Ok(s) => match psbt_from_str(s.as_str()) {
                Some(p) => Ok(p),
                None => Err(()),
            },
            Err(_) => Err(()),
        }
    }

    /// Accepts an extraction outcome: a transaction lacking input values is
    /// still used, a refused one is an error.
    pub fn accept_extracted_tx(outcome: ExtractedTx) -> (r: Result<Transaction, ()>)
        ensures
            match outcome {
                ExtractedTx::Extracted(tx) => r == Ok::<Transaction, ()>(tx),
                ExtractedTx::MissingInputValue(tx) => r == Ok::<Transaction, ()>(tx),
                ExtractedTx::Refused => r is Err,
            },
    {
        match outcome {
            ExtractedTx::Extracted(tx) => Ok(tx),
            ExtractedTx::MissingInputValue(tx) => Ok(tx),
            ExtractedTx::Refused => Err(()),
        }
    }

    /// The transaction spending LDK's outputs, from the signed PSBT: the
    /// extracted transaction, also when input values are missing; an error
    /// when extraction is refused.
    pub fn spend_signed_psbt(signed: Psbt) -> (r: Result<Transaction, ()>)
        ensures
            match extraction(signed) {
                ExtractedTx::Extracted(tx) => r == Ok::<Transaction, ()>(tx),
                ExtractedTx::MissingInputValue(tx) => r == Ok::<Transaction, ()>(tx),
                ExtractedTx::Refused => r is Err,
            },
    {
        Self::accept_extracted_tx(extract_tx(signed))
    }
}

} // verus!
