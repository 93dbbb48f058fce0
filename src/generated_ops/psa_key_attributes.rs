//! Wire messages for key attributes.
use vstd::prelude::*;
use crate::generated_ops::psa_algorithm::Algorithm;

verus! {

#[derive(Clone, Copy, Debug, PartialEq, Eq)]
pub enum KeyTypeVariant {
    RawData,
    Hmac,
    Derive,
    Aes,
    Des,
    Camellia,
    Chacha20,
    RsaPublicKey,
    RsaKeyPair,
    EccKeyPair { curve_family: i32 },
    EccPublicKey { curve_family: i32 },
}

#[derive(Clone, Copy, Debug, PartialEq, Eq)]
pub struct KeyType {
    pub variant: Option<KeyTypeVariant>,
}

#[derive(Clone, Copy, Debug, PartialEq, Eq)]
pub struct UsageFlags {
    pub export: bool,
    pub copy: bool,
    pub cache: bool,
    pub encrypt: bool,
    pub decrypt: bool,
    pub sign_message: bool,
    pub verify_message: bool,
    pub sign_hash: bool,
    pub verify_hash: bool,
    pub derive: bool,
}

#[derive(Clone, Copy, Debug, PartialEq, Eq)]
pub struct KeyPolicy {
    pub key_usage_flags: Option<UsageFlags>,
    pub key_algorithm: Option<Algorithm>,
}

#[derive(Clone, Copy, Debug, PartialEq, Eq)]
pub struct KeyAttributes {
    pub lifetime: i32,
    pub key_type: Option<KeyType>,
    pub key_bits: u32,
    pub key_policy: Option<KeyPolicy>,
}

} // verus!
