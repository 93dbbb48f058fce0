//! Wire messages for algorithm identifiers. Each level is a oneof whose
//! discriminant may be unset; enumerations are `i32` with 0 meaning unset.
use vstd::prelude::*;

verus! {

#[derive(Clone, Copy, Debug, PartialEq, Eq)]
pub enum SignHashVariant {
    Any,
    Specific(i32),
}

#[derive(Clone, Copy, Debug, PartialEq, Eq)]
pub struct SignHash {
    pub variant: Option<SignHashVariant>,
}

#[derive(Clone, Copy, Debug, PartialEq, Eq)]
pub enum AsymmetricSignatureVariant {
    RsaPkcs1v15Sign { hash_alg: Option<SignHash> },
    RsaPkcs1v15SignRaw,
    RsaPss { hash_alg: Option<SignHash> },
    Ecdsa { hash_alg: Option<SignHash> },
    EcdsaAny,
    DeterministicEcdsa { hash_alg: Option<SignHash> },
}

#[derive(Clone, Copy, Debug, PartialEq, Eq)]
pub struct AsymmetricSignature {
    pub variant: Option<AsymmetricSignatureVariant>,
}

#[derive(Clone, Copy, Debug, PartialEq, Eq)]
pub struct AeadWithShortenedTag {
    pub aead_alg: i32,
    pub tag_length: u32,
}

#[derive(Clone, Copy, Debug, PartialEq, Eq)]
pub enum AeadVariant {
    AeadWithDefaultLengthTag(i32),
    AeadWithShortenedTag(AeadWithShortenedTag),
}

#[derive(Clone, Copy, Debug, PartialEq, Eq)]
pub struct Aead {
    pub variant: Option<AeadVariant>,
}

#[derive(Clone, Copy, Debug, PartialEq, Eq)]
pub enum AlgorithmVariant {
    Unspecified,
    Hash(i32),
    Aead(Aead),
    AsymmetricSignature(AsymmetricSignature),
}

#[derive(Clone, Copy, Debug, PartialEq, Eq)]
pub struct Algorithm {
    pub variant: Option<AlgorithmVariant>,
}

} // verus!
