//! Verified core of the RGB Lightning node's storage key layout, external
//! signer bootstrap handling and C-FFI result/error encoding.
pub mod text;
pub mod json;
pub mod hex;
pub mod bootstrap;
pub mod ffi;
pub mod rgb_kv_store;
pub mod signer;
pub mod native_signer;
pub mod fee_mock;
pub mod fixtures;
pub mod vls_transport;
