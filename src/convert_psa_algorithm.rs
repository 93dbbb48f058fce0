//! Conversion of algorithm identifiers. Every level of the nested union must
//! carry its discriminant on the wire; an unset one is an invalid encoding.
use vstd::prelude::*;
use crate::generated_ops::psa_algorithm as wire;
use crate::operations::psa_algorithm as native;
use crate::requests::{decoded, ResponseStatus};

verus! {

pub open spec fn hash_to_wire(h: native::Hash) -> i32 {
    match h {
        native::Hash::Md2 => 1,
        native::Hash::Md4 => 2,
        native::Hash::Md5 => 3,
        native::Hash::Ripemd160 => 4,
        native::Hash::Sha1 => 5,
        native::Hash::Sha224 => 6,
        native::Hash::Sha256 => 7,
        native::Hash::Sha384 => 8,
        native::Hash::Sha512 => 9,
        native::Hash::Sha512_224 => 10,
        native::Hash::Sha512_256 => 11,
        native::Hash::Sha3_224 => 12,
        native::Hash::Sha3_256 => 13,
        native::Hash::Sha3_384 => 14,
        native::Hash::Sha3_512 => 15,
    }
}

pub open spec fn hash_from_wire(v: i32) -> Option<native::Hash> {
    if v == 1 {
        Some(native::Hash::Md2)
    } else if v == 2 {
        Some(native::Hash::Md4)
    } else if v == 3 {
        Some(native::Hash::Md5)
    } else if v == 4 {
        Some(native::Hash::Ripemd160)
    } else if v == 5 {
        Some(native::Hash::Sha1)
    } else if v == 6 {
        Some(native::Hash::Sha224)
    } else if v == 7 {
        Some(native::Hash::Sha256)
    } else if v == 8 {
        Some(native::Hash::Sha384)
    } else if v == 9 {
        Some(native::Hash::Sha512)
    } else if v == 10 {
        Some(native::Hash::Sha512_224)
    } else if v == 11 {
        Some(native::Hash::Sha512_256)
    } else if v == 12 {
        Some(native::Hash::Sha3_224)
    } else if v == 13 {
        Some(native::Hash::Sha3_256)
    } else if v == 14 {
        Some(native::Hash::Sha3_384)
    } else if v == 15 {
        Some(native::Hash::Sha3_512)
    } else {
        None
    }
}

pub open spec fn aead_tag_to_wire(h: native::AeadWithDefaultLengthTag) -> i32 {
    match h {
        native::AeadWithDefaultLengthTag::Ccm => 1,
        native::AeadWithDefaultLengthTag::Gcm => 2,
        native::AeadWithDefaultLengthTag::Chacha20Poly1305 => 3,
    }
}

pub open spec fn aead_tag_from_wire(v: i32) -> Option<native::AeadWithDefaultLengthTag> {
    if v == 1 {
        Some(native::AeadWithDefaultLengthTag::Ccm)
    } else if v == 2 {
        Some(native::AeadWithDefaultLengthTag::Gcm)
    } else if v == 3 {
        Some(native::AeadWithDefaultLengthTag::Chacha20Poly1305)
    } else {
        None
    }
}

pub open spec fn sign_hash_to_wire(s: native::SignHash) -> wire::SignHash {
    wire::SignHash {
        variant: Some(
            match s {
                native::SignHash::Any => wire::SignHashVariant::Any,
                native::SignHash::Specific(h) => wire::SignHashVariant::Specific(hash_to_wire(h)),
            },
        ),
    }
}

pub open spec fn sign_hash_from_wire(w: wire::SignHash) -> Option<native::SignHash> {
    match w.variant {
        Some(wire::SignHashVariant::Any) => Some(native::SignHash::Any),
        Some(wire::SignHashVariant::Specific(v)) => match hash_from_wire(v) {
            Some(h) => Some(native::SignHash::Specific(h)),
            None => None,
        },
        None => None,
    }
}

/// A hash selector that the schema marks optional but the scheme requires.
pub open spec fn required_sign_hash_from_wire(o: Option<wire::SignHash>) -> Option<
    native::SignHash,
> {
    match o {
        Some(w) => sign_hash_from_wire(w),
        None => None,
    }
}

pub open spec fn asymmetric_signature_to_wire(
    a: native::AsymmetricSignature,
) -> wire::AsymmetricSignature {
    wire::AsymmetricSignature {
        variant: Some(
            match a {
                native::AsymmetricSignature::RsaPkcs1v15Sign { hash_alg } => {
                    wire::AsymmetricSignatureVariant::RsaPkcs1v15Sign {
                        hash_alg: Some(sign_hash_to_wire(hash_alg)),
                    }
                },
                native::AsymmetricSignature::RsaPkcs1v15SignRaw => {
                    wire::AsymmetricSignatureVariant::RsaPkcs1v15SignRaw
                },
                native::AsymmetricSignature::RsaPss { hash_alg } => {
                    wire::AsymmetricSignatureVariant::RsaPss {
                        hash_alg: Some(sign_hash_to_wire(hash_alg)),
                    }
                },
                native::AsymmetricSignature::Ecdsa { hash_alg } => {
                    wire::AsymmetricSignatureVariant::Ecdsa {
                        hash_alg: Some(sign_hash_to_wire(hash_alg)),
                    }
                },
                native::AsymmetricSignature::EcdsaAny => wire::AsymmetricSignatureVariant::EcdsaAny,
                native::AsymmetricSignature::DeterministicEcdsa { hash_alg } => {
                    wire::AsymmetricSignatureVariant::DeterministicEcdsa {
                        hash_alg: Some(sign_hash_to_wire(hash_alg)),
                    }
                },
            },
        ),
    }
}

pub open spec fn asymmetric_signature_from_wire(w: wire::AsymmetricSignature) -> Option<
    native::AsymmetricSignature,
> {
    match w.variant {
        None => None,
        Some(v) => match v {
            wire::AsymmetricSignatureVariant::RsaPkcs1v15Sign { hash_alg } => {
                match required_sign_hash_from_wire(hash_alg) {
                    Some(h) => Some(native::AsymmetricSignature::RsaPkcs1v15Sign { hash_alg: h }),
                    None => None,
                }
            },
            wire::AsymmetricSignatureVariant::RsaPkcs1v15SignRaw => {
                Some(native::AsymmetricSignature::RsaPkcs1v15SignRaw)
            },
            wire::AsymmetricSignatureVariant::RsaPss { hash_alg } => {
                match required_sign_hash_from_wire(hash_alg) {
                    Some(h) => Some(native::AsymmetricSignature::RsaPss { hash_alg: h }),
                    None => None,
                }
            },
            wire::AsymmetricSignatureVariant::Ecdsa { hash_alg } => {
                match required_sign_hash_from_wire(hash_alg) {
                    Some(h) => Some(native::AsymmetricSignature::Ecdsa { hash_alg: h }),
                    None => None,
                }
            },
            wire::AsymmetricSignatureVariant::EcdsaAny => Some(
                native::AsymmetricSignature::EcdsaAny,
            ),
            wire::AsymmetricSignatureVariant::DeterministicEcdsa { hash_alg } => {
                match required_sign_hash_from_wire(hash_alg) {
                    Some(h) => Some(native::AsymmetricSignature::DeterministicEcdsa { hash_alg: h }),
                    None => None,
                }
            },
        },
    }
}

/// Encodes an AEAD algorithm; a tag length that does not fit the 32-bit wire
/// field has no wire form.
pub open spec fn aead_to_wire(a: native::Aead) -> Option<wire::Aead> {
    match a {
        native::Aead::AeadWithDefaultLengthTag(t) => Some(
            wire::Aead { variant: Some(wire::AeadVariant::AeadWithDefaultLengthTag(aead_tag_to_wire(t))) },
        ),
        native::Aead::AeadWithShortenedTag { aead_alg, tag_length } => {
            if tag_length <= u32::MAX {
                Some(
                    wire::Aead {
                        variant: Some(
                            wire::AeadVariant::AeadWithShortenedTag(
                                wire::AeadWithShortenedTag {
                                    aead_alg: aead_tag_to_wire(aead_alg),
                                    tag_length: tag_length as u32,
                                },
                            ),
                        ),
                    },
                )
            } else {
                None
            }
        },
    }
}

pub open spec fn aead_from_wire(w: wire::Aead) -> Option<native::Aead> {
    match w.variant {
        None => None,
        Some(wire::AeadVariant::AeadWithDefaultLengthTag(v)) => match aead_tag_from_wire(v) {
            Some(t) => Some(native::Aead::AeadWithDefaultLengthTag(t)),
            None => None,
        },
        Some(wire::AeadVariant::AeadWithShortenedTag(s)) => match aead_tag_from_wire(s.aead_alg) {
            Some(t) => Some(
                native::Aead::AeadWithShortenedTag { aead_alg: t, tag_length: s.tag_length as usize },
            ),
            None => None,
        },
    }
}

pub open spec fn algorithm_to_wire(a: native::Algorithm) -> Option<wire::Algorithm> {
    match a {
        native::Algorithm::Unspecified => Some(wire::Algorithm { variant: Some(wire::AlgorithmVariant::Unspecified) }),
        native::Algorithm::Hash(h) => Some(
            wire::Algorithm { variant: Some(wire::AlgorithmVariant::Hash(hash_to_wire(h))) },
        ),
        native::Algorithm::Aead(x) => match aead_to_wire(x) {
            Some(w) => Some(wire::Algorithm { variant: Some(wire::AlgorithmVariant::Aead(w)) }),
            None => None,
        },
        native::Algorithm::AsymmetricSignature(s) => Some(
            wire::Algorithm {
                variant: Some(
                    wire::AlgorithmVariant::AsymmetricSignature(asymmetric_signature_to_wire(s)),
                ),
            },
        ),
    }
}

pub open spec fn algorithm_from_wire(w: wire::Algorithm) -> Option<native::Algorithm> {
    match w.variant {
        None => None,
        Some(wire::AlgorithmVariant::Unspecified) => Some(native::Algorithm::Unspecified),
        Some(wire::AlgorithmVariant::Hash(v)) => match hash_from_wire(v) {
            Some(h) => Some(native::Algorithm::Hash(h)),
            None => None,
        },
        Some(wire::AlgorithmVariant::Aead(x)) => match aead_from_wire(x) {
            Some(a) => Some(native::Algorithm::Aead(a)),
            None => None,
        },
        Some(wire::AlgorithmVariant::AsymmetricSignature(s)) => match asymmetric_signature_from_wire(
            s,
        ) {
            Some(a) => Some(native::Algorithm::AsymmetricSignature(a)),
            None => None,
        },
    }
}

/// Encodes a hash selector as its wire discriminant.
pub fn hash_to_proto(h: native::Hash) -> (r: i32)
    ensures
        r == hash_to_wire(h),
{
    match h {
        native::Hash::Md2 => 1,
        native::Hash::Md4 => 2,
        native::Hash::Md5 => 3,
        native::Hash::Ripemd160 => 4,
        native::Hash::Sha1 => 5,
        native::Hash::Sha224 => 6,
        native::Hash::Sha256 => 7,
        native::Hash::Sha384 => 8,
        native::Hash::Sha512 => 9,
        native::Hash::Sha512_224 => 10,
        native::Hash::Sha512_256 => 11,
        native::Hash::Sha3_224 => 12,
        native::Hash::Sha3_256 => 13,
        native::Hash::Sha3_384 => 14,
        native::Hash::Sha3_512 => 15,
    }
}

/// Decodes a hash discriminant; 0 (unset) and unknown values are rejected.
pub fn hash_from_proto(v: i32) -> (r: Result<native::Hash, ResponseStatus>)
    ensures
        r == decoded(hash_from_wire(v)),
{
    match v {
        1 => Ok(native::Hash::Md2),
        2 => Ok(native::Hash::Md4),
        3 => Ok(native::Hash::Md5),
        4 => Ok(native::Hash::Ripemd160),
        5 => Ok(native::Hash::Sha1),
        6 => Ok(native::Hash::Sha224),
        7 => Ok(native::Hash::Sha256),
        8 => Ok(native::Hash::Sha384),
        9 => Ok(native::Hash::Sha512),
        10 => Ok(native::Hash::Sha512_224),
        11 => Ok(native::Hash::Sha512_256),
        12 => Ok(native::Hash::Sha3_224),
        13 => Ok(native::Hash::Sha3_256),
        14 => Ok(native::Hash::Sha3_384),
        15 => Ok(native::Hash::Sha3_512),
        _ => Err(ResponseStatus::InvalidEncoding),
    }
}

/// Encodes an AEAD scheme as its wire discriminant.
pub fn aead_tag_to_proto(h: native::AeadWithDefaultLengthTag) -> (r: i32)
    ensures
        r == aead_tag_to_wire(h),
{
    match h {
        native::AeadWithDefaultLengthTag::Ccm => 1,
        native::AeadWithDefaultLengthTag::Gcm => 2,
        native::AeadWithDefaultLengthTag::Chacha20Poly1305 => 3,
    }
}

/// Decodes an AEAD scheme discriminant; 0 (unset) and unknown values are rejected.
pub fn aead_tag_from_proto(v: i32) -> (r: Result<native::AeadWithDefaultLengthTag, ResponseStatus>)
    ensures
        r == decoded(aead_tag_from_wire(v)),
{
    match v {
        1 => Ok(native::AeadWithDefaultLengthTag::Ccm),
        2 => Ok(native::AeadWithDefaultLengthTag::Gcm),
        3 => Ok(native::AeadWithDefaultLengthTag::Chacha20Poly1305),
        _ => Err(ResponseStatus::InvalidEncoding),
    }
}

pub fn sign_hash_to_proto(s: native::SignHash) -> (r: wire::SignHash)
    ensures
        r == sign_hash_to_wire(s),
{
    match s {
        native::SignHash::Any => wire::SignHash { variant: Some(wire::SignHashVariant::Any) },
        native::SignHash::Specific(h) => wire::SignHash {
            variant: Some(wire::SignHashVariant::Specific(hash_to_proto(h))),
        },
    }
}

pub fn sign_hash_from_proto(w: wire::SignHash) -> (r: Result<native::SignHash, ResponseStatus>)
    ensures
        r == decoded(sign_hash_from_wire(w)),
{
    match w.variant {
        Some(wire::SignHashVariant::Any) => Ok(native::SignHash::Any),
        Some(wire::SignHashVariant::Specific(v)) => {
            let h = hash_from_proto(v)?;
            Ok(native::SignHash::Specific(h))
        },
        None => Err(ResponseStatus::InvalidEncoding),
    }
}

fn required_sign_hash_from_proto(o: Option<wire::SignHash>) -> (r: Result<
    native::SignHash,
    ResponseStatus,
>)
    ensures
        r == decoded(required_sign_hash_from_wire(o)),
{
    match o {
        Some(w) => sign_hash_from_proto(w),
        None => Err(ResponseStatus::InvalidEncoding),
    }
}

pub fn asymmetric_signature_to_proto(a: native::AsymmetricSignature) -> (r:
    wire::AsymmetricSignature)
    ensures
        r == asymmetric_signature_to_wire(a),
{
    let v = match a {
        native::AsymmetricSignature::RsaPkcs1v15Sign { hash_alg } => {
            wire::AsymmetricSignatureVariant::RsaPkcs1v15Sign {
                hash_alg: Some(sign_hash_to_proto(hash_alg)),
            }
        },
        native::AsymmetricSignature::RsaPkcs1v15SignRaw => {
            wire::AsymmetricSignatureVariant::RsaPkcs1v15SignRaw
        },
        native::AsymmetricSignature::RsaPss { hash_alg } => {
            wire::AsymmetricSignatureVariant::RsaPss { hash_alg: Some(sign_hash_to_proto(hash_alg)) }
        },
        native::AsymmetricSignature::Ecdsa { hash_alg } => {
            wire::AsymmetricSignatureVariant::Ecdsa { hash_alg: Some(sign_hash_to_proto(hash_alg)) }
        },
        native::AsymmetricSignature::EcdsaAny => wire::AsymmetricSignatureVariant::EcdsaAny,
        native::AsymmetricSignature::DeterministicEcdsa { hash_alg } => {
            wire::AsymmetricSignatureVariant::DeterministicEcdsa {
                hash_alg: Some(sign_hash_to_proto(hash_alg)),
            }
        },
    };
    wire::AsymmetricSignature { variant: Some(v) }
}

pub fn asymmetric_signature_from_proto(w: wire::AsymmetricSignature) -> (r: Result<
    native::AsymmetricSignature,
    ResponseStatus,
>)
    ensures
        r == decoded(asymmetric_signature_from_wire(w)),
{
    match w.variant {
        None => Err(ResponseStatus::InvalidEncoding),
        Some(v) => match v {
            wire::AsymmetricSignatureVariant::RsaPkcs1v15Sign { hash_alg } => {
                let h = required_sign_hash_from_proto(hash_alg)?;
                Ok(native::AsymmetricSignature::RsaPkcs1v15Sign { hash_alg: h })
            },
            wire::AsymmetricSignatureVariant::RsaPkcs1v15SignRaw => {
                Ok(native::AsymmetricSignature::RsaPkcs1v15SignRaw)
            },
            wire::AsymmetricSignatureVariant::RsaPss { hash_alg } => {
                let h = required_sign_hash_from_proto(hash_alg)?;
                Ok(native::AsymmetricSignature::RsaPss { hash_alg: h })
            },
            wire::AsymmetricSignatureVariant::Ecdsa { hash_alg } => {
                let h = required_sign_hash_from_proto(hash_alg)?;
                Ok(native::AsymmetricSignature::Ecdsa { hash_alg: h })
            },
            wire::AsymmetricSignatureVariant::EcdsaAny => Ok(native::AsymmetricSignature::EcdsaAny),
            wire::AsymmetricSignatureVariant::DeterministicEcdsa { hash_alg } => {
                let h = required_sign_hash_from_proto(hash_alg)?;
                Ok(native::AsymmetricSignature::DeterministicEcdsa { hash_alg: h })
            },
        },
    }
}

pub fn aead_to_proto(a: native::Aead) -> (r: Result<wire::Aead, ResponseStatus>)
    ensures
        r == decoded(aead_to_wire(a)),
{
    match a {
        native::Aead::AeadWithDefaultLengthTag(t) => Ok(
            wire::Aead {
                variant: Some(wire::AeadVariant::AeadWithDefaultLengthTag(aead_tag_to_proto(t))),
            },
        ),
        native::Aead::AeadWithShortenedTag { aead_alg, tag_length } => {
            if tag_length <= u32::MAX as usize {
                Ok(
                    wire::Aead {
                        variant: Some(
                            wire::AeadVariant::AeadWithShortenedTag(
                                wire::AeadWithShortenedTag {
                                    aead_alg: aead_tag_to_proto(aead_alg),
                                    tag_length: tag_length as u32,
                                },
                            ),
                        ),
                    },
                )
            } else {
                Err(ResponseStatus::InvalidEncoding)
            }
        },
    }
}

pub fn aead_from_proto(w: wire::Aead) -> (r: Result<native::Aead, ResponseStatus>)
    ensures
        r == decoded(aead_from_wire(w)),
{
    match w.variant {
        None => Err(ResponseStatus::InvalidEncoding),
        Some(wire::AeadVariant::AeadWithDefaultLengthTag(v)) => {
            let t = aead_tag_from_proto(v)?;
            Ok(native::Aead::AeadWithDefaultLengthTag(t))
        },
        Some(wire::AeadVariant::AeadWithShortenedTag(s)) => {
            let t = aead_tag_from_proto(s.aead_alg)?;
            Ok(native::Aead::AeadWithShortenedTag { aead_alg: t, tag_length: s.tag_length as usize })
        },
    }
}

pub fn algorithm_to_proto(a: native::Algorithm) -> (r: Result<wire::Algorithm, ResponseStatus>)
    ensures
        r == decoded(algorithm_to_wire(a)),
{
    let v = match a {
        native::Algorithm::Unspecified => wire::AlgorithmVariant::Unspecified,
        native::Algorithm::Hash(h) => wire::AlgorithmVariant::Hash(hash_to_proto(h)),
        native::Algorithm::Aead(x) => wire::AlgorithmVariant::Aead(aead_to_proto(x)?),
        native::Algorithm::AsymmetricSignature(s) => {
            wire::AlgorithmVariant::AsymmetricSignature(asymmetric_signature_to_proto(s))
        },
    };
    Ok(wire::Algorithm { variant: Some(v) })
}

pub fn algorithm_from_proto(w: wire::Algorithm) -> (r: Result<native::Algorithm, ResponseStatus>)
    ensures
        r == decoded(algorithm_from_wire(w)),
{
    match w.variant {
        None => Err(ResponseStatus::InvalidEncoding),
        Some(wire::AlgorithmVariant::Unspecified) => Ok(native::Algorithm::Unspecified),
        Some(wire::AlgorithmVariant::Hash(v)) => Ok(native::Algorithm::Hash(hash_from_proto(v)?)),
        Some(wire::AlgorithmVariant::Aead(x)) => Ok(native::Algorithm::Aead(aead_from_proto(x)?)),
        Some(wire::AlgorithmVariant::AsymmetricSignature(s)) => {
            Ok(native::Algorithm::AsymmetricSignature(asymmetric_signature_from_proto(s)?))
        },
    }
}

/// Decoding an encoded algorithm gives it back, whatever the depth of nesting.
pub proof fn lemma_algorithm_round_trip(a: native::Algorithm)
    ensures
        algorithm_to_wire(a) matches Some(w) ==> algorithm_from_wire(w) == Some(a),
{
}

/// A wire algorithm that decodes is exactly the encoding of what it decodes to.
pub proof fn lemma_algorithm_wire_round_trip(w: wire::Algorithm)
    ensures
        algorithm_from_wire(w) matches Some(a) ==> algorithm_to_wire(a) == Some(w),
{
}

/// A signature scheme parameterised by a specific hash has a wire form, and
/// decoding that form gives back the scheme with the same hash.
pub proof fn lemma_signature_hash_round_trip(h: native::Hash)
    ensures
        ({
            let a = native::Algorithm::AsymmetricSignature(
                native::AsymmetricSignature::RsaPkcs1v15Sign { hash_alg: native::SignHash::Specific(h) },
            );
            algorithm_to_wire(a) matches Some(w) && algorithm_from_wire(w) == Some(a)
        }),
{
}

/// An unset discriminant at any level of an algorithm is rejected, never
/// replaced by a default.
pub proof fn lemma_unset_discriminant_rejected(w: wire::Algorithm)
    ensures
        w.variant is None ==> algorithm_from_wire(w) is None,
        (w.variant matches Some(wire::AlgorithmVariant::Aead(x)) && x.variant is None)
            ==> algorithm_from_wire(w) is None,
        (w.variant matches Some(wire::AlgorithmVariant::AsymmetricSignature(x)) && x.variant is None)
            ==> algorithm_from_wire(w) is None,
        (w.variant matches Some(wire::AlgorithmVariant::AsymmetricSignature(x)) && x.variant matches Some(
            wire::AsymmetricSignatureVariant::RsaPkcs1v15Sign { hash_alg },
        ) && (hash_alg matches Some(hs) ==> hs.variant is None)) ==> algorithm_from_wire(w) is None,
{
}

} // verus!
