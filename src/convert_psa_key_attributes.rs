//! Conversion of key attributes. The key type, the policy, its usage flags and
//! its permitted algorithm are all mandatory on the wire.
use vstd::prelude::*;
use crate::convert_psa_algorithm::{
    algorithm_from_proto, algorithm_from_wire, algorithm_to_proto, algorithm_to_wire,
};
use crate::generated_ops::psa_key_attributes as wire;
use crate::operations::psa_key_attributes as native;
use crate::requests::{decoded, ResponseStatus};

verus! {

pub open spec fn lifetime_to_wire(h: native::Lifetime) -> i32 {
    match h {
        native::Lifetime::Volatile => 0,
        native::Lifetime::Persistent => 1,
    }
}

pub open spec fn lifetime_from_wire(v: i32) -> Option<native::Lifetime> {
    if v == 0 {
        Some(native::Lifetime::Volatile)
    } else if v == 1 {
        Some(native::Lifetime::Persistent)
    } else {
        None
    }
}

pub open spec fn ecc_family_to_wire(h: native::EccFamily) -> i32 {
    match h {
        native::EccFamily::SecpK1 => 1,
        native::EccFamily::SecpR1 => 2,
        native::EccFamily::SecpR2 => 3,
        native::EccFamily::SectK1 => 4,
        native::EccFamily::SectR1 => 5,
        native::EccFamily::SectR2 => 6,
        native::EccFamily::BrainpoolPR1 => 7,
        native::EccFamily::Frp => 8,
        native::EccFamily::Montgomery => 9,
    }
}

pub open spec fn ecc_family_from_wire(v: i32) -> Option<native::EccFamily> {
    if v == 1 {
        Some(native::EccFamily::SecpK1)
    } else if v == 2 {
        Some(native::EccFamily::SecpR1)
    } else if v == 3 {
        Some(native::EccFamily::SecpR2)
    } else if v == 4 {
        Some(native::EccFamily::SectK1)
    } else if v == 5 {
        Some(native::EccFamily::SectR1)
    } else if v == 6 {
        Some(native::EccFamily::SectR2)
    } else if v == 7 {
        Some(native::EccFamily::BrainpoolPR1)
    } else if v == 8 {
        Some(native::EccFamily::Frp)
    } else if v == 9 {
        Some(native::EccFamily::Montgomery)
    } else {
        None
    }
}

pub open spec fn key_type_to_wire(t: native::Type) -> wire::KeyType {
    wire::KeyType {
        variant: Some(
            match t {
                native::Type::RawData => wire::KeyTypeVariant::RawData,
                native::Type::Hmac => wire::KeyTypeVariant::Hmac,
                native::Type::Derive => wire::KeyTypeVariant::Derive,
                native::Type::Aes => wire::KeyTypeVariant::Aes,
                native::Type::Des => wire::KeyTypeVariant::Des,
                native::Type::Camellia => wire::KeyTypeVariant::Camellia,
                native::Type::Chacha20 => wire::KeyTypeVariant::Chacha20,
                native::Type::RsaPublicKey => wire::KeyTypeVariant::RsaPublicKey,
                native::Type::RsaKeyPair => wire::KeyTypeVariant::RsaKeyPair,
                native::Type::EccKeyPair { curve_family } => wire::KeyTypeVariant::EccKeyPair {
                    curve_family: ecc_family_to_wire(curve_family),
                },
                native::Type::EccPublicKey { curve_family } => wire::KeyTypeVariant::EccPublicKey {
                    curve_family: ecc_family_to_wire(curve_family),
                },
            },
        ),
    }
}

pub open spec fn key_type_from_wire(w: wire::KeyType) -> Option<native::Type> {
    match w.variant {
        None => None,
        Some(v) => match v {
            wire::KeyTypeVariant::RawData => Some(native::Type::RawData),
            wire::KeyTypeVariant::Hmac => Some(native::Type::Hmac),
            wire::KeyTypeVariant::Derive => Some(native::Type::Derive),
            wire::KeyTypeVariant::Aes => Some(native::Type::Aes),
            wire::KeyTypeVariant::Des => Some(native::Type::Des),
            wire::KeyTypeVariant::Camellia => Some(native::Type::Camellia),
            wire::KeyTypeVariant::Chacha20 => Some(native::Type::Chacha20),
            wire::KeyTypeVariant::RsaPublicKey => Some(native::Type::RsaPublicKey),
            wire::KeyTypeVariant::RsaKeyPair => Some(native::Type::RsaKeyPair),
            wire::KeyTypeVariant::EccKeyPair { curve_family } => match ecc_family_from_wire(
                curve_family,
            ) {
                Some(f) => Some(native::Type::EccKeyPair { curve_family: f }),
                None => None,
            },
            wire::KeyTypeVariant::EccPublicKey { curve_family } => match ecc_family_from_wire(
                curve_family,
            ) {
                Some(f) => Some(native::Type::EccPublicKey { curve_family: f }),
                None => None,
            },
        },
    }
}

/// The usage flags are copied one by one: none is dropped or defaulted.
pub open spec fn usage_flags_to_wire(f: native::UsageFlags) -> wire::UsageFlags {
    wire::UsageFlags {
        export: f.export,
        copy: f.copy,
        cache: f.cache,
        encrypt: f.encrypt,
        decrypt: f.decrypt,
        sign_message: f.sign_message,
        verify_message: f.verify_message,
        sign_hash: f.sign_hash,
        verify_hash: f.verify_hash,
        derive: f.derive,
    }
}

pub open spec fn usage_flags_from_wire(f: wire::UsageFlags) -> native::UsageFlags {
    native::UsageFlags {
        export: f.export,
        copy: f.copy,
        cache: f.cache,
        encrypt: f.encrypt,
        decrypt: f.decrypt,
        sign_message: f.sign_message,
        verify_message: f.verify_message,
        sign_hash: f.sign_hash,
        verify_hash: f.verify_hash,
        derive: f.derive,
    }
}

pub open spec fn policy_to_wire(p: native::Policy) -> Option<wire::KeyPolicy> {
    match algorithm_to_wire(p.permitted_algorithms) {
        Some(a) => Some(
            wire::KeyPolicy {
                key_usage_flags: Some(usage_flags_to_wire(p.usage_flags)),
                key_algorithm: Some(a),
            },
        ),
        None => None,
    }
}

pub open spec fn policy_from_wire(w: wire::KeyPolicy) -> Option<native::Policy> {
    match (w.key_usage_flags, w.key_algorithm) {
        (Some(f), Some(a)) => match algorithm_from_wire(a) {
            Some(alg) => Some(
                native::Policy { usage_flags: usage_flags_from_wire(f), permitted_algorithms: alg },
            ),
            None => None,
        },
        _ => None,
    }
}

/// Encodes key attributes; a size beyond the 32-bit wire field, or an
/// algorithm without wire form, has no encoding.
pub open spec fn attributes_to_wire(a: native::Attributes) -> Option<wire::KeyAttributes> {
    if a.bits > u32::MAX {
        None
    } else {
        match policy_to_wire(a.policy) {
            Some(p) => Some(
                wire::KeyAttributes {
                    lifetime: lifetime_to_wire(a.lifetime),
                    key_type: Some(key_type_to_wire(a.key_type)),
                    key_bits: a.bits as u32,
                    key_policy: Some(p),
                },
            ),
            None => None,
        }
    }
}

pub open spec fn attributes_from_wire(w: wire::KeyAttributes) -> Option<native::Attributes> {
    match (lifetime_from_wire(w.lifetime), w.key_type, w.key_policy) {
        (Some(l), Some(t), Some(p)) => match (key_type_from_wire(t), policy_from_wire(p)) {
            (Some(kt), Some(pol)) => Some(
                native::Attributes {
                    lifetime: l,
                    key_type: kt,
                    bits: w.key_bits as usize,
                    policy: pol,
                },
            ),
            _ => None,
        },
        _ => None,
    }
}

/// Encodes a key lifetime as its wire discriminant.
pub fn lifetime_to_proto(h: native::Lifetime) -> (r: i32)
    ensures
        r == lifetime_to_wire(h),
{
    match h {
        native::Lifetime::Volatile => 0,
        native::Lifetime::Persistent => 1,
    }
}

/// Decodes a key lifetime; unknown values are rejected.
pub fn lifetime_from_proto(v: i32) -> (r: Result<native::Lifetime, ResponseStatus>)
    ensures
        r == decoded(lifetime_from_wire(v)),
{
    match v {
        0 => Ok(native::Lifetime::Volatile),
        1 => Ok(native::Lifetime::Persistent),
        _ => Err(ResponseStatus::InvalidEncoding),
    }
}

/// Encodes an elliptic curve family as its wire discriminant.
pub fn ecc_family_to_proto(h: native::EccFamily) -> (r: i32)
    ensures
        r == ecc_family_to_wire(h),
{
    match h {
        native::EccFamily::SecpK1 => 1,
        native::EccFamily::SecpR1 => 2,
        native::EccFamily::SecpR2 => 3,
        native::EccFamily::SectK1 => 4,
        native::EccFamily::SectR1 => 5,
        native::EccFamily::SectR2 => 6,
        native::EccFamily::BrainpoolPR1 => 7,
        native::EccFamily::Frp => 8,
        native::EccFamily::Montgomery => 9,
    }
}

/// Decodes a curve family; 0 (unset) and unknown values are rejected.
pub fn ecc_family_from_proto(v: i32) -> (r: Result<native::EccFamily, ResponseStatus>)
    ensures
        r == decoded(ecc_family_from_wire(v)),
{
    match v {
        1 => Ok(native::EccFamily::SecpK1),
        2 => Ok(native::EccFamily::SecpR1),
        3 => Ok(native::EccFamily::SecpR2),
        4 => Ok(native::EccFamily::SectK1),
        5 => Ok(native::EccFamily::SectR1),
        6 => Ok(native::EccFamily::SectR2),
        7 => Ok(native::EccFamily::BrainpoolPR1),
        8 => Ok(native::EccFamily::Frp),
        9 => Ok(native::EccFamily::Montgomery),
        _ => Err(ResponseStatus::InvalidEncoding),
    }
}

pub fn key_type_to_proto(t: native::Type) -> (r: wire::KeyType)
    ensures
        r == key_type_to_wire(t),
{
    let v = match t {
        native::Type::RawData => wire::KeyTypeVariant::RawData,
        native::Type::Hmac => wire::KeyTypeVariant::Hmac,
        native::Type::Derive => wire::KeyTypeVariant::Derive,
        native::Type::Aes => wire::KeyTypeVariant::Aes,
        native::Type::Des => wire::KeyTypeVariant::Des,
        native::Type::Camellia => wire::KeyTypeVariant::Camellia,
        native::Type::Chacha20 => wire::KeyTypeVariant::Chacha20,
        native::Type::RsaPublicKey => wire::KeyTypeVariant::RsaPublicKey,
        native::Type::RsaKeyPair => wire::KeyTypeVariant::RsaKeyPair,
        native::Type::EccKeyPair { curve_family } => wire::KeyTypeVariant::EccKeyPair {
            curve_family: ecc_family_to_proto(curve_family),
        },
        native::Type::EccPublicKey { curve_family } => wire::KeyTypeVariant::EccPublicKey {
            curve_family: ecc_family_to_proto(curve_family),
        },
    };
    wire::KeyType { variant: Some(v) }
}

pub fn key_type_from_proto(w: wire::KeyType) -> (r: Result<native::Type, ResponseStatus>)
    ensures
        r == decoded(key_type_from_wire(w)),
{
    match w.variant {
        None => Err(ResponseStatus::InvalidEncoding),
        Some(v) => match v {
            wire::KeyTypeVariant::RawData => Ok(native::Type::RawData),
            wire::KeyTypeVariant::Hmac => Ok(native::Type::Hmac),
            wire::KeyTypeVariant::Derive => Ok(native::Type::Derive),
            wire::KeyTypeVariant::Aes => Ok(native::Type::Aes),
            wire::KeyTypeVariant::Des => Ok(native::Type::Des),
            wire::KeyTypeVariant::Camellia => Ok(native::Type::Camellia),
            wire::KeyTypeVariant::Chacha20 => Ok(native::Type::Chacha20),
            wire::KeyTypeVariant::RsaPublicKey => Ok(native::Type::RsaPublicKey),
            wire::KeyTypeVariant::RsaKeyPair => Ok(native::Type::RsaKeyPair),
            wire::KeyTypeVariant::EccKeyPair { curve_family } => {
                let f = ecc_family_from_proto(curve_family)?;
                Ok(native::Type::EccKeyPair { curve_family: f })
            },
            wire::KeyTypeVariant::EccPublicKey { curve_family } => {
                let f = ecc_family_from_proto(curve_family)?;
                Ok(native::Type::EccPublicKey { curve_family: f })
            },
        },
    }
}

pub fn usage_flags_to_proto(f: native::UsageFlags) -> (r: wire::UsageFlags)
    ensures
        r == usage_flags_to_wire(f),
{
    wire::UsageFlags {
        export: f.export,
        copy: f.copy,
        cache: f.cache,
        encrypt: f.encrypt,
        decrypt: f.decrypt,
        sign_message: f.sign_message,
        verify_message: f.verify_message,
        sign_hash: f.sign_hash,
        verify_hash: f.verify_hash,
        derive: f.derive,
    }
}

pub fn usage_flags_from_proto(f: wire::UsageFlags) -> (r: native::UsageFlags)
    ensures
        r == usage_flags_from_wire(f),
{
    native::UsageFlags {
        export: f.export,
        copy: f.copy,
        cache: f.cache,
        encrypt: f.encrypt,
        decrypt: f.decrypt,
        sign_message: f.sign_message,
        verify_message: f.verify_message,
        sign_hash: f.sign_hash,
        verify_hash: f.verify_hash,
        derive: f.derive,
    }
}

pub fn policy_to_proto(p: native::Policy) -> (r: Result<wire::KeyPolicy, ResponseStatus>)
    ensures
        r == decoded(policy_to_wire(p)),
{
    let a = algorithm_to_proto(p.permitted_algorithms)?;
    Ok(
        wire::KeyPolicy {
            key_usage_flags: Some(usage_flags_to_proto(p.usage_flags)),
            key_algorithm: Some(a),
        },
    )
}

pub fn policy_from_proto(w: wire::KeyPolicy) -> (r: Result<native::Policy, ResponseStatus>)
    ensures
        r == decoded(policy_from_wire(w)),
{
    match (w.key_usage_flags, w.key_algorithm) {
        (Some(f), Some(a)) => {
            let alg = algorithm_from_proto(a)?;
            Ok(native::Policy { usage_flags: usage_flags_from_proto(f), permitted_algorithms: alg })
        },
        _ => Err(ResponseStatus::InvalidEncoding),
    }
}

pub fn attributes_to_proto(a: native::Attributes) -> (r: Result<
    wire::KeyAttributes,
    ResponseStatus,
>)
    ensures
        r == decoded(attributes_to_wire(a)),
{
    if a.bits > u32::MAX as usize {
        return Err(ResponseStatus::InvalidEncoding);
    }
    let p = policy_to_proto(a.policy)?;
    Ok(
        wire::KeyAttributes {
            lifetime: lifetime_to_proto(a.lifetime),
            key_type: Some(key_type_to_proto(a.key_type)),
            key_bits: a.bits as u32,
            key_policy: Some(p),
        },
    )
}

pub fn attributes_from_proto(w: wire::KeyAttributes) -> (r: Result<
    native::Attributes,
    ResponseStatus,
>)
    ensures
        r == decoded(attributes_from_wire(w)),
{
    let l = lifetime_from_proto(w.lifetime)?;
    let t = match w.key_type {
        Some(t) => key_type_from_proto(t)?,
        None => return Err(ResponseStatus::InvalidEncoding),
    };
    let p = match w.key_policy {
        Some(p) => policy_from_proto(p)?,
        None => return Err(ResponseStatus::InvalidEncoding),
    };
    Ok(native::Attributes { lifetime: l, key_type: t, bits: w.key_bits as usize, policy: p })
}

proof fn lemma_key_type_round_trip(t: native::Type)
    ensures
        key_type_from_wire(key_type_to_wire(t)) == Some(t),
        lifetime_from_wire(0) == Some(native::Lifetime::Volatile),
        lifetime_from_wire(1) == Some(native::Lifetime::Persistent),
{
}

proof fn lemma_key_type_wire_round_trip(w: wire::KeyType, l: i32)
    ensures
        key_type_from_wire(w) matches Some(t) ==> key_type_to_wire(t) == w,
        lifetime_from_wire(l) matches Some(x) ==> lifetime_to_wire(x) == l,
{
}

proof fn lemma_policy_round_trip(p: native::Policy)
    ensures
        policy_to_wire(p) matches Some(w) ==> policy_from_wire(w) == Some(p),
{
    crate::convert_psa_algorithm::lemma_algorithm_round_trip(p.permitted_algorithms);
}

proof fn lemma_policy_wire_round_trip(w: wire::KeyPolicy)
    ensures
        policy_from_wire(w) matches Some(p) ==> policy_to_wire(p) == Some(w),
{
    if let Some(alg) = w.key_algorithm {
        crate::convert_psa_algorithm::lemma_algorithm_wire_round_trip(alg);
    }
}

/// Decoding encoded key attributes gives them back, the permitted algorithm
/// and all ten usage flags included.
pub proof fn lemma_attributes_round_trip(a: native::Attributes)
    ensures
        attributes_to_wire(a) matches Some(w) ==> attributes_from_wire(w) == Some(a),
{
    lemma_key_type_round_trip(a.key_type);
    lemma_policy_round_trip(a.policy);
}

/// Wire key attributes that decode are exactly the encoding of what they
/// decode to.
pub proof fn lemma_attributes_wire_round_trip(w: wire::KeyAttributes)
    ensures
        attributes_from_wire(w) matches Some(a) ==> attributes_to_wire(a) == Some(w),
{
    if let Some(t) = w.key_type {
        lemma_key_type_wire_round_trip(t, w.lifetime);
    }
    if let Some(p) = w.key_policy {
        lemma_policy_wire_round_trip(p);
    }
}

} // verus!
