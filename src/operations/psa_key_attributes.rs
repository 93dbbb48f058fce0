//! Key metadata: lifetime, type, size and usage policy.
use vstd::prelude::*;
use crate::operations::psa_algorithm::Algorithm;

verus! {

#[derive(Clone, Copy, Debug, PartialEq, Eq)]
pub enum Lifetime {
    Volatile,
    Persistent,
}

#[derive(Clone, Copy, Debug, PartialEq, Eq)]
pub enum EccFamily {
    SecpK1,
    SecpR1,
    SecpR2,
    SectK1,
    SectR1,
    SectR2,
    BrainpoolPR1,
    Frp,
    Montgomery,
}

/// The type of a key; elliptic-curve keys are parameterised by their family.
#[derive(Clone, Copy, Debug, PartialEq, Eq)]
pub enum Type {
    RawData,
    Hmac,
    Derive,
    Aes,
    Des,
    Camellia,
    Chacha20,
    RsaPublicKey,
    RsaKeyPair,
    EccKeyPair { curve_family: EccFamily },
    EccPublicKey { curve_family: EccFamily },
}

/// The ten independent capabilities a key may be granted.
#[derive(Clone, Copy, Debug, PartialEq, Eq)]
pub struct UsageFlags {
    pub export: bool,
    pub copy: bool,
    pub cache: bool,
    pub encrypt: bool,
    pub decrypt: bool,
    pub sign_message: bool,
    pub verify_message: bool,
    pub sign_hash: bool,
    pub verify_hash: bool,
    pub derive: bool,
}

#[derive(Clone, Copy, Debug, PartialEq, Eq)]
pub struct Policy {
    pub usage_flags: UsageFlags,
    pub permitted_algorithms: Algorithm,
}

/// Attributes of a key. A `bits` of 0 lets the provider choose the size.
#[derive(Clone, Copy, Debug, PartialEq, Eq)]
pub struct Attributes {
    pub lifetime: Lifetime,
    pub key_type: Type,
    pub bits: usize,
    pub policy: Policy,
}

} // verus!
