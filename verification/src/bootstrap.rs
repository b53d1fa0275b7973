//! The external signer's bootstrap record: validation of the LDK auxiliary
//! keys it carries, and the 32-byte root seed for async payments.
use vstd::prelude::*;
use vstd::utf8::encode_utf8;
use bitcoin::hashes::{sha256, Hash as BitcoinHash};
use crate::hex::{decode_hex, hex_decode, hex_error_text, is_hex_digit, is_hex_string};
use crate::text::{decimal, push_decimal};

verus! {

/// Identity part of the bootstrap record.
#[derive(Debug, Clone, PartialEq, Eq)]
pub struct SignerIdentity {
    pub node_id: String,
    pub account_xpub_vanilla: String,
    pub account_xpub_colored: String,
    pub master_fingerprint: String,
}

/// Bootstrap record an external signer hands to the node.
#[derive(Debug, Clone, PartialEq, Eq)]
pub struct BootstrapData {
    pub identity: SignerIdentity,
    pub protocol_version: String,
    pub api_level: u32,
    pub ldk_inbound_payment_key_hex: String,
    pub ldk_peer_storage_key_hex: String,
    pub ldk_receive_auth_key_hex: String,
    pub async_payments_root_seed_hex: String,
}

/// Errors of the external signer integration.
#[derive(Debug, Clone, PartialEq, Eq)]
pub enum RlnSignerError {
    Transport(String),
    Protocol(String),
    Unsupported(String),
}

/// Bootstrap `api_level` the node accepts from an attached external signer.
pub const SUPPORTED_SIGNER_API_LEVEL: u32 = 1;

/// Length in bytes of the UTF-8 encoding of `s` (what `str::len` returns).
pub open spec fn utf8_len(s: Seq<char>) -> nat {
    encode_utf8(s).len()
}

/// What is wrong with an LDK auxiliary key field, if anything.
pub open spec fn aux_key_problem(label: Seq<char>, h: Seq<char>) -> Option<Seq<char>> {
    if utf8_len(h) != 64 {
        Some(label + " must be 64 hex characters (32 bytes), got length "@ + decimal(utf8_len(h)))
    } else if !is_hex_string(h) {
        Some(label + " is not valid hex: "@ + hex_error_text(h))
    } else {
        None
    }
}

/// What is wrong with the async payments seed field, if anything.
pub open spec fn async_seed_problem(h: Seq<char>) -> Option<Seq<char>> {
    if h.len() == 0 {
        None
    } else if utf8_len(h) != 64 {
        Some(
            "async_payments_root_seed_hex must be empty or 64 hex characters (32 bytes), got length "@
                + decimal(utf8_len(h)),
        )
    } else if !is_hex_string(h) {
        Some("async_payments_root_seed_hex is not valid hex: "@ + hex_error_text(h))
    } else {
        None
    }
}

/// The first problem found in a bootstrap record, fields taken in order.
pub open spec fn bootstrap_problem(b: BootstrapData) -> Option<Seq<char>> {
    let p1 = aux_key_problem("ldk_inbound_payment_key_hex"@, b.ldk_inbound_payment_key_hex@);
    let p2 = aux_key_problem("ldk_peer_storage_key_hex"@, b.ldk_peer_storage_key_hex@);
    let p3 = aux_key_problem("ldk_receive_auth_key_hex"@, b.ldk_receive_auth_key_hex@);
    if p1 is Some {
        p1
    } else if p2 is Some {
        p2
    } else if p3 is Some {
        p3
    } else {
        async_seed_problem(b.async_payments_root_seed_hex@)
    }
}

/// The outcome of a check that yields either nothing or a protocol error.
pub open spec fn protocol_outcome(problem: Option<Seq<char>>, r: Result<(), RlnSignerError>) -> bool {
    match problem {
        None => r is Ok,
        Some(m) => r matches Err(RlnSignerError::Protocol(msg)) && msg@ == m,
    }
}

fn check_aux_key(label: &str, h: &str) -> (r: Result<(), RlnSignerError>)
    ensures
        protocol_outcome(aux_key_problem(label@, h@), r),
{
    let n = h.as_bytes().len();
    if n != 64 {
        let mut m = String::from_str(label);
        m.append(" must be 64 hex characters (32 bytes), got length ");
        push_decimal(&mut m, n as u64);
        assert(m@ =~= label@ + " must be 64 hex characters (32 bytes), got length "@ + decimal(
            utf8_len(h@),
        ));
        return Err(RlnSignerError::Protocol(m));
    }
    match decode_hex(h) {
        Ok(_) => Ok(()),
        Err(e) => {
            let mut m = String::from_str(label);
            m.append(" is not valid hex: ");
            m.append(e.as_str());
            assert(m@ =~= label@ + " is not valid hex: "@ + hex_error_text(h@));
            Err(RlnSignerError::Protocol(m))
        },
    }
}

fn check_async_seed(h: &str) -> (r: Result<(), RlnSignerError>)
    ensures
        protocol_outcome(async_seed_problem(h@), r),
{
    if h.is_empty() {
        return Ok(());
    }
    let n = h.as_bytes().len();
    if n != 64 {
        let mut m = String::from_str(
            "async_payments_root_seed_hex must be empty or 64 hex characters (32 bytes), got length ",
        );
        push_decimal(&mut m, n as u64);
        assert(m@ =~= "async_payments_root_seed_hex must be empty or 64 hex characters (32 bytes), got length "@
            + decimal(utf8_len(h@)));
        return Err(RlnSignerError::Protocol(m));
    }
    match decode_hex(h) {
        Ok(_) => Ok(()),
        Err(e) => {
            let mut m = String::from_str("async_payments_root_seed_hex is not valid hex: ");
            m.append(e.as_str());
            assert(m@ =~= "async_payments_root_seed_hex is not valid hex: "@ + hex_error_text(h@));
            Err(RlnSignerError::Protocol(m))
        },
    }
}

/// Validates the LDK auxiliary key hex fields of a bootstrap record (64 hex
/// characters each) and the optional async payments seed (empty or 64 hex
/// characters); reports the first problem as a protocol error.
pub fn validate_bootstrap_ldk_auxiliary_keys(bootstrap: &BootstrapData) -> (r: Result<
    (),
    RlnSignerError,
>)
    ensures
        protocol_outcome(bootstrap_problem(*bootstrap), r),
        r is Ok ==> {
            &&& is_hex_string(bootstrap.ldk_inbound_payment_key_hex@)
            &&& hex_decode(bootstrap.ldk_inbound_payment_key_hex@).len() == 32
            &&& is_hex_string(bootstrap.ldk_peer_storage_key_hex@)
            &&& hex_decode(bootstrap.ldk_peer_storage_key_hex@).len() == 32
            &&& is_hex_string(bootstrap.ldk_receive_auth_key_hex@)
            &&& hex_decode(bootstrap.ldk_receive_auth_key_hex@).len() == 32
        },
{
    proof {
        lemma_validation_checks_every_field(*bootstrap);
    }
    check_aux_key("ldk_inbound_payment_key_hex", bootstrap.ldk_inbound_payment_key_hex.as_str())?;
    check_aux_key("ldk_peer_storage_key_hex", bootstrap.ldk_peer_storage_key_hex.as_str())?;
    check_aux_key("ldk_receive_auth_key_hex", bootstrap.ldk_receive_auth_key_hex.as_str())?;
    check_async_seed(bootstrap.async_payments_root_seed_hex.as_str())
}

/// SHA-256 digest of `data`.
pub uninterp spec fn sha256_digest(data: Seq<u8>) -> Seq<u8>;

/// `bitcoin::hashes::sha256::Hash::hash(data).to_byte_array()`: the SHA-256
/// digest of `data`. Only the digest's name is claimed, not its value.
#[verifier::external_body]
fn sha256(data: &[u8]) -> (r: [u8; 32])
    ensures
        r@ == sha256_digest(data@),
{
    <sha256::Hash as BitcoinHash>::hash(data).to_byte_array()
}

fn append_utf8(v: &mut Vec<u8>, s: &str)
    ensures
        final(v)@ == old(v)@ + encode_utf8(s@),
{
    let bytes = s.as_bytes();
    v.extend_from_slice(bytes);
    assert(final(v)@ =~= old(v)@ + encode_utf8(s@));
}

/// Bytes hashed into the legacy async payments seed: the identity's node id,
/// vanilla and colored xpubs, master fingerprint, then the protocol version.
pub open spec fn compat_seed_material(b: BootstrapData) -> Seq<u8> {
    encode_utf8(b.identity.node_id@) + encode_utf8(b.identity.account_xpub_vanilla@) + encode_utf8(
        b.identity.account_xpub_colored@,
    ) + encode_utf8(b.identity.master_fingerprint@) + encode_utf8(b.protocol_version@)
}

/// Legacy deterministic 32-byte seed used when the bootstrap record carries
/// no async payments seed.
pub fn derive_async_payments_compat_seed_from_bootstrap(bootstrap: &BootstrapData) -> (r: [u8; 32])
    ensures
        r@ == sha256_digest(compat_seed_material(*bootstrap)),
{
    let mut m: Vec<u8> = Vec::new();
    append_utf8(&mut m, bootstrap.identity.node_id.as_str());
    append_utf8(&mut m, bootstrap.identity.account_xpub_vanilla.as_str());
    append_utf8(&mut m, bootstrap.identity.account_xpub_colored.as_str());
    append_utf8(&mut m, bootstrap.identity.master_fingerprint.as_str());
    append_utf8(&mut m, bootstrap.protocol_version.as_str());
    assert(m@ =~= compat_seed_material(*bootstrap));
    sha256(m.as_slice())
}

/// Copies a 32-byte vector into an array.
pub fn to_array32(v: &Vec<u8>) -> (r: [u8; 32])
    requires
        v@.len() == 32,
    ensures
        r@ == v@,
{
    let mut out = [0u8; 32];
    let mut i: usize = 0;
    while i < 32
        invariant
            v@.len() == 32,
            i <= 32,
            forall|j: int| 0 <= j < i ==> out@[j] == v@[j],
        decreases 32 - i,
    {
        out[i] = v[i];
        i = i + 1;
    }
    assert(out@ =~= v@);
    out
}

/// The async payments root seed a bootstrap record yields, or the text of
/// the protocol error it is refused with.
pub open spec fn root_seed_outcome(b: BootstrapData) -> Result<Seq<u8>, Seq<char>> {
    let h = b.async_payments_root_seed_hex@;
    if h.len() == 0 {
        Ok(sha256_digest(compat_seed_material(b)))
    } else if !is_hex_string(h) {
        Err("async_payments_root_seed_hex invalid hex: "@ + hex_error_text(h))
    } else if hex_decode(h).len() != 32 {
        Err("async_payments_root_seed_hex must decode to exactly 32 bytes"@)
    } else {
        Ok(hex_decode(h))
    }
}

/// The 32-byte async payments root seed: the host's value when the record
/// carries one, otherwise the legacy derived seed.
pub fn async_payments_root_seed_bytes(bootstrap: &BootstrapData) -> (r: Result<
    [u8; 32],
    RlnSignerError,
>)
    ensures
        match root_seed_outcome(*bootstrap) {
            Ok(seed) => r matches Ok(a) && a@ == seed,
            Err(m) => r matches Err(RlnSignerError::Protocol(msg)) && msg@ == m,
        },
{
    let h = bootstrap.async_payments_root_seed_hex.as_str();
    if h.is_empty() {
        return Ok(derive_async_payments_compat_seed_from_bootstrap(bootstrap));
    }
    match decode_hex(h) {
        Err(e) => {
            let mut m = String::from_str("async_payments_root_seed_hex invalid hex: ");
            m.append(e.as_str());
            Err(RlnSignerError::Protocol(m))
        },
        Ok(v) => {
            if v.len() != 32 {
                Err(
                    RlnSignerError::Protocol(
                        String::from_str(
                            "async_payments_root_seed_hex must decode to exactly 32 bytes",
                        ),
                    ),
                )
            } else {
                Ok(to_array32(&v))
            }
        },
    }
}

/// A bootstrap record that passes validation always yields an async payments
/// root seed.
pub proof fn lemma_validated_bootstrap_yields_seed(b: BootstrapData)
    requires
        bootstrap_problem(b) is None,
    ensures
        root_seed_outcome(b) is Ok,
        b.async_payments_root_seed_hex@.len() == 0 ==> root_seed_outcome(b) == Ok::<
            Seq<u8>,
            Seq<char>,
        >(sha256_digest(compat_seed_material(b))),
        b.async_payments_root_seed_hex@.len() != 0 ==> root_seed_outcome(b) == Ok::<
            Seq<u8>,
            Seq<char>,
        >(hex_decode(b.async_payments_root_seed_hex@)),
{
    broadcast use vstd::utf8::is_ascii_chars_encode_utf8;

    let h = b.async_payments_root_seed_hex@;
    if h.len() != 0 {
        assert(is_hex_string(h));
        assert(vstd::utf8::is_ascii_chars(h)) by {
            assert forall|i: int| 0 <= i < h.len() implies '\0' <= #[trigger] h[i] <= '\u{7f}' by {
                assert(is_hex_digit(h[i]));
            }
        }
        assert(utf8_len(h) == h.len());
        assert(hex_decode(h).len() == 32);
    }
}

/// A hex string is ASCII, so its UTF-8 length is its length.
proof fn lemma_hex_utf8_len(h: Seq<char>)
    requires
        is_hex_string(h),
    ensures
        utf8_len(h) == h.len(),
{
    broadcast use vstd::utf8::is_ascii_chars_encode_utf8;

    assert(vstd::utf8::is_ascii_chars(h)) by {
        assert forall|i: int| 0 <= i < h.len() implies '\0' <= #[trigger] h[i] <= '\u{7f}' by {
            assert(is_hex_digit(h[i]));
        }
    }
}

/// An auxiliary key field is accepted exactly when it is hex for 32 bytes.
pub proof fn lemma_aux_key_accepted(label: Seq<char>, h: Seq<char>)
    ensures
        aux_key_problem(label, h) is None <==> (is_hex_string(h) && hex_decode(h).len() == 32),
{
    if is_hex_string(h) {
        lemma_hex_utf8_len(h);
    }
}

/// The async payments seed field is accepted exactly when it is empty or hex
/// for 32 bytes.
pub proof fn lemma_async_seed_accepted(h: Seq<char>)
    ensures
        async_seed_problem(h) is None <==> (h.len() == 0 || (is_hex_string(h) && hex_decode(h).len()
            == 32)),
{
    if is_hex_string(h) {
        lemma_hex_utf8_len(h);
    }
}

/// Validation accepts a bootstrap record exactly when each of the three LDK
/// auxiliary key fields is hex for 32 bytes and the async payments seed field
/// is empty or hex for 32 bytes; no field is skipped.
pub proof fn lemma_validation_checks_every_field(b: BootstrapData)
    ensures
        bootstrap_problem(b) is None <==> {
            &&& is_hex_string(b.ldk_inbound_payment_key_hex@)
            &&& hex_decode(b.ldk_inbound_payment_key_hex@).len() == 32
            &&& is_hex_string(b.ldk_peer_storage_key_hex@)
            &&& hex_decode(b.ldk_peer_storage_key_hex@).len() == 32
            &&& is_hex_string(b.ldk_receive_auth_key_hex@)
            &&& hex_decode(b.ldk_receive_auth_key_hex@).len() == 32
            &&& (b.async_payments_root_seed_hex@.len() == 0 || (is_hex_string(
                b.async_payments_root_seed_hex@,
            ) && hex_decode(b.async_payments_root_seed_hex@).len() == 32))
        },
{
    lemma_aux_key_accepted("ldk_inbound_payment_key_hex"@, b.ldk_inbound_payment_key_hex@);
    lemma_aux_key_accepted("ldk_peer_storage_key_hex"@, b.ldk_peer_storage_key_hex@);
    lemma_aux_key_accepted("ldk_receive_auth_key_hex"@, b.ldk_receive_auth_key_hex@);
    lemma_async_seed_accepted(b.async_payments_root_seed_hex@);
}

/// The legacy seed hashes the record's fields in a fixed order: the node id,
/// then the vanilla xpub, the colored xpub, the master fingerprint and the
/// protocol version, each as its UTF-8 bytes and nothing in between.
pub proof fn lemma_compat_seed_field_order(b: BootstrapData)
    ensures
        ({
            let m = compat_seed_material(b);
            let n0 = encode_utf8(b.identity.node_id@).len() as int;
            let n1 = n0 + encode_utf8(b.identity.account_xpub_vanilla@).len();
            let n2 = n1 + encode_utf8(b.identity.account_xpub_colored@).len();
            let n3 = n2 + encode_utf8(b.identity.master_fingerprint@).len();
            let n4 = n3 + encode_utf8(b.protocol_version@).len();
            &&& m.len() == n4
            &&& m.subrange(0, n0) == encode_utf8(b.identity.node_id@)
            &&& m.subrange(n0, n1) == encode_utf8(b.identity.account_xpub_vanilla@)
            &&& m.subrange(n1, n2) == encode_utf8(b.identity.account_xpub_colored@)
            &&& m.subrange(n2, n3) == encode_utf8(b.identity.master_fingerprint@)
            &&& m.subrange(n3, n4) == encode_utf8(b.protocol_version@)
        }),
{
    let m = compat_seed_material(b);
    let e0 = encode_utf8(b.identity.node_id@);
    let e1 = encode_utf8(b.identity.account_xpub_vanilla@);
    let e2 = encode_utf8(b.identity.account_xpub_colored@);
    let e3 = encode_utf8(b.identity.master_fingerprint@);
    let e4 = encode_utf8(b.protocol_version@);
    let n0 = e0.len() as int;
    let n1 = n0 + e1.len();
    let n2 = n1 + e2.len();
    let n3 = n2 + e3.len();
    let n4 = n3 + e4.len();
    assert(m.subrange(0, n0) =~= e0);
    assert(m.subrange(n0, n1) =~= e1);
    assert(m.subrange(n1, n2) =~= e2);
    assert(m.subrange(n2, n3) =~= e3);
    assert(m.subrange(n3, n4) =~= e4);
}

/// A refused record is refused for its first bad field, the fields taken
/// in the order inbound payment key, peer storage key, receive auth key,
/// async payments seed: the message starts with that field's name.
pub proof fn lemma_first_bad_field_named(b: BootstrapData)
    ensures
        !(is_hex_string(b.ldk_inbound_payment_key_hex@) && hex_decode(
            b.ldk_inbound_payment_key_hex@,
        ).len() == 32) ==> (bootstrap_problem(b) matches Some(m)
            && "ldk_inbound_payment_key_hex"@.is_prefix_of(m)),
        (is_hex_string(b.ldk_inbound_payment_key_hex@) && hex_decode(
            b.ldk_inbound_payment_key_hex@,
        ).len() == 32) && !(is_hex_string(b.ldk_peer_storage_key_hex@) && hex_decode(
            b.ldk_peer_storage_key_hex@,
        ).len() == 32) ==> (bootstrap_problem(b) matches Some(m)
            && "ldk_peer_storage_key_hex"@.is_prefix_of(m)),
        (is_hex_string(b.ldk_inbound_payment_key_hex@) && hex_decode(
            b.ldk_inbound_payment_key_hex@,
        ).len() == 32) && (is_hex_string(b.ldk_peer_storage_key_hex@) && hex_decode(
            b.ldk_peer_storage_key_hex@,
        ).len() == 32) && !(is_hex_string(b.ldk_receive_auth_key_hex@) && hex_decode(
            b.ldk_receive_auth_key_hex@,
        ).len() == 32) ==> (bootstrap_problem(b) matches Some(m)
            && "ldk_receive_auth_key_hex"@.is_prefix_of(m)),
{
    let l1 = "ldk_inbound_payment_key_hex"@;
    let l2 = "ldk_peer_storage_key_hex"@;
    let l3 = "ldk_receive_auth_key_hex"@;
    lemma_aux_key_accepted(l1, b.ldk_inbound_payment_key_hex@);
    lemma_aux_key_accepted(l2, b.ldk_peer_storage_key_hex@);
    lemma_aux_key_accepted(l3, b.ldk_receive_auth_key_hex@);
    lemma_label_prefix(l1, b.ldk_inbound_payment_key_hex@);
    lemma_label_prefix(l2, b.ldk_peer_storage_key_hex@);
    lemma_label_prefix(l3, b.ldk_receive_auth_key_hex@);
}

proof fn lemma_label_prefix(label: Seq<char>, h: Seq<char>)
    ensures
        aux_key_problem(label, h) matches Some(m) ==> label.is_prefix_of(m),
{
    if let Some(m) = aux_key_problem(label, h) {
        assert(m.subrange(0, label.len() as int) =~= label);
    }
}

} // verus!
