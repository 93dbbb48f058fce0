//! The wire schema: one message shape per operation kind. Oneof fields are an
//! `Option` of an enum, enumerations are carried as `i32`, as on the wire.
pub mod psa_algorithm;
pub mod psa_key_attributes;
pub mod psa_aead_encrypt;
pub mod psa_generate_key;
pub mod psa_verify_hash;
pub mod list_keys;

use vstd::prelude::*;

verus! {

/// A request body read with the message shape of one operation kind.
#[derive(Clone, Debug, PartialEq, Eq)]
pub enum WireOperation {
    PsaGenerateKey(psa_generate_key::Operation),
    PsaAeadEncrypt(psa_aead_encrypt::Operation),
    PsaVerifyHash(psa_verify_hash::Operation),
    ListKeys(list_keys::Operation),
}

/// A response body read with the message shape of one operation kind.
#[derive(Clone, Debug, PartialEq, Eq)]
pub enum WireResult {
    PsaGenerateKey(psa_generate_key::Result),
    PsaAeadEncrypt(psa_aead_encrypt::Result),
    PsaVerifyHash(psa_verify_hash::Result),
    ListKeys(list_keys::Result),
}

} // verus!
