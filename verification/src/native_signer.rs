//! The in-process signer handed to SDK users: reading its network and seed
//! arguments, and turning its bootstrap answer into the SDK's record.
use vstd::prelude::*;
use crate::bootstrap::{BootstrapData, RlnSignerError};
use crate::ffi::RlnError;
use crate::hex::{decode_hex, hex_decode, is_hex_string};
use crate::signer::SignerResponse;
use crate::bootstrap::to_array32;

verus! {

/// Bitcoin networks the signer can run on.
#[derive(Debug, Clone, PartialEq, Eq)]
pub enum Network {
    Bitcoin,
    Testnet,
    Signet,
    Regtest,
}

/// Lower-case form of a text as `str::to_lowercase` produces it.
pub uninterp spec fn unicode_lowercase(s: Seq<char>) -> Seq<char>;

/// `str::to_lowercase`: the Unicode lower-case form of `s`. Only the name of
/// the result is claimed.
#[verifier::external_body]
fn to_lowercase(s: &str) -> (r: String)
    ensures
        r@ == unicode_lowercase(s@),
{
    s.to_lowercase()
}

/// Network named by a lower-case name.
pub open spec fn network_by_name(name: Seq<char>) -> Option<Network> {
    if name == "mainnet"@ || name == "bitcoin"@ {
        Some(Network::Bitcoin)
    } else if name == "testnet"@ || name == "testnet4"@ {
        Some(Network::Testnet)
    } else if name == "signet"@ {
        Some(Network::Signet)
    } else if name == "regtest"@ {
        Some(Network::Regtest)
    } else {
        None
    }
}

/// The network a lower-case name denotes.
pub fn network_from_lowercase(name: &String) -> (r: Result<Network, RlnError>)
    ensures
        match network_by_name(name@) {
            Some(n) => r == Ok::<Network, RlnError>(n),
            None => r matches Err(RlnError::InvalidRequest),
        },
{
    if *name == String::from_str("mainnet") || *name == String::from_str("bitcoin") {
        Ok(Network::Bitcoin)
    } else if *name == String::from_str("testnet") || *name == String::from_str("testnet4") {
        Ok(Network::Testnet)
    } else if *name == String::from_str("signet") {
        Ok(Network::Signet)
    } else if *name == String::from_str("regtest") {
        Ok(Network::Regtest)
    } else {
        Err(RlnError::InvalidRequest)
    }
}

/// The bootstrap record as the SDK exposes it.
#[derive(Debug, Clone, PartialEq, Eq)]
pub struct SdkExternalSignerBootstrap {
    pub node_id: String,
    pub account_xpub_vanilla: String,
    pub account_xpub_colored: String,
    pub master_fingerprint: String,
    pub protocol_version: String,
    pub api_level: u32,
    pub ldk_inbound_payment_key_hex: String,
    pub ldk_peer_storage_key_hex: String,
    pub ldk_receive_auth_key_hex: String,
    pub async_payments_root_seed_hex: String,
}

/// The SDK record carries the bootstrap record's fields unchanged.
pub open spec fn sdk_bootstrap_of(data: BootstrapData, r: SdkExternalSignerBootstrap) -> bool {
    &&& r.node_id == data.identity.node_id
    &&& r.account_xpub_vanilla == data.identity.account_xpub_vanilla
    &&& r.account_xpub_colored == data.identity.account_xpub_colored
    &&& r.master_fingerprint == data.identity.master_fingerprint
    &&& r.protocol_version == data.protocol_version
    &&& r.api_level == data.api_level
    &&& r.ldk_inbound_payment_key_hex == data.ldk_inbound_payment_key_hex
    &&& r.ldk_peer_storage_key_hex == data.ldk_peer_storage_key_hex
    &&& r.ldk_receive_auth_key_hex == data.ldk_receive_auth_key_hex
    &&& r.async_payments_root_seed_hex == data.async_payments_root_seed_hex
}

/// What the native signer's in-process VLS node is set up with: the network,
/// the 32-byte seed and whether the permissive policy applies.
#[derive(Debug, Clone, PartialEq, Eq)]
pub struct NativeExternalSigner {
    pub network: Network,
    pub seed: [u8; 32],
    pub permissive_policy: bool,
}

impl NativeExternalSigner {
    /// Reads a network name, case-insensitively.
    pub fn parse_network(network: &str) -> (r: Result<Network, RlnError>)
        ensures
            match network_by_name(unicode_lowercase(network@)) {
                Some(n) => r == Ok::<Network, RlnError>(n),
                None => r matches Err(RlnError::InvalidRequest),
            },
    {
        let lower = to_lowercase(network);
        network_from_lowercase(&lower)
    }

    /// Reads a 32-byte seed given in hex.
    pub fn parse_seed_hex(seed_hex: &str) -> (r: Result<[u8; 32], RlnError>)
        ensures
            match r {
                Ok(seed) => is_hex_string(seed_hex@) && seed@ == hex_decode(seed_hex@),
                Err(e) => e is InvalidRequest && !(is_hex_string(seed_hex@) && hex_decode(
                    seed_hex@,
                ).len() == 32),
            },
    {
        let v = match decode_hex(seed_hex) {
            Ok(v) => v,
            Err(_) => return Err(RlnError::InvalidRequest),
        };
        if v.len() != 32 {
            return Err(RlnError::InvalidRequest);
        }
        Ok(to_array32(&v))
    }

    /// Maps a bootstrap record to the SDK's record.
    pub fn map_bootstrap(data: BootstrapData) -> (r: SdkExternalSignerBootstrap)
        ensures
            sdk_bootstrap_of(data, r),
    {
        SdkExternalSignerBootstrap {
            node_id: data.identity.node_id,
            account_xpub_vanilla: data.identity.account_xpub_vanilla,
            account_xpub_colored: data.identity.account_xpub_colored,
            master_fingerprint: data.identity.master_fingerprint,
            protocol_version: data.protocol_version,
            api_level: data.api_level,
            ldk_inbound_payment_key_hex: data.ldk_inbound_payment_key_hex,
            ldk_peer_storage_key_hex: data.ldk_peer_storage_key_hex,
            ldk_receive_auth_key_hex: data.ldk_receive_auth_key_hex,
            async_payments_root_seed_hex: data.async_payments_root_seed_hex,
        }
    }

    /// Reads the signer's answer to a bootstrap request: a bootstrap record
    /// becomes the SDK's record; a failed call or any other answer is an
    /// internal error.
    pub fn bootstrap(&self, response: Result<SignerResponse, RlnSignerError>) -> (r: Result<
        SdkExternalSignerBootstrap,
        RlnError,
    >)
        ensures
            match response {
                Ok(SignerResponse::Bootstrap(data)) => r matches Ok(b) && sdk_bootstrap_of(data, b),
                _ => r matches Err(RlnError::Internal),
            },
    {
        match response {
            Ok(SignerResponse::Bootstrap(data)) => Ok(Self::map_bootstrap(data)),
            _ => Err(RlnError::Internal),
        }
    }

    /// Reads the signer's arguments: the network first, then the seed; the
    /// policy is permissive unless said otherwise.
    pub fn new(seed_hex: String, network: String, permissive_policy: Option<bool>) -> (r: Result<
        NativeExternalSigner,
        RlnError,
    >)
        ensures
            match r {
                Ok(s) => {
                    &&& network_by_name(unicode_lowercase(network@)) == Some(s.network)
                    &&& is_hex_string(seed_hex@)
                    &&& s.seed@ == hex_decode(seed_hex@)
                    &&& s.permissive_policy == match permissive_policy {
                        Some(p) => p,
                        None => true,
                    }
                },
                Err(e) => e is InvalidRequest && (network_by_name(unicode_lowercase(network@)) is None
                    || !(is_hex_string(seed_hex@) && hex_decode(seed_hex@).len() == 32)),
            },
    {
        let network = match Self::parse_network(network.as_str()) {
            Ok(n) => n,
            Err(e) => return Err(e),
        };
        let seed = match Self::parse_seed_hex(seed_hex.as_str()) {
            Ok(s) => s,
            Err(e) => return Err(e),
        };
        let permissive_policy = match permissive_policy {
            Some(p) => p,
            None => true,
        };
        Ok(NativeExternalSigner { network, seed, permissive_policy })
    }
}

/// A field-by-field copy of an SDK bootstrap record.
pub fn clone_bootstrap(b: &SdkExternalSignerBootstrap) -> (r: SdkExternalSignerBootstrap)
    ensures
        r == *b,
{
    SdkExternalSignerBootstrap {
        node_id: b.node_id.clone(),
        account_xpub_vanilla: b.account_xpub_vanilla.clone(),
        account_xpub_colored: b.account_xpub_colored.clone(),
        master_fingerprint: b.master_fingerprint.clone(),
        protocol_version: b.protocol_version.clone(),
        api_level: b.api_level,
        ldk_inbound_payment_key_hex: b.ldk_inbound_payment_key_hex.clone(),
        ldk_peer_storage_key_hex: b.ldk_peer_storage_key_hex.clone(),
        ldk_receive_auth_key_hex: b.ldk_receive_auth_key_hex.clone(),
        async_payments_root_seed_hex: b.async_payments_root_seed_hex.clone(),
    }
}

} // verus!
