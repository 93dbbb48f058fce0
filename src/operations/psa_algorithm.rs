//! Cryptographic algorithm identifiers: a tagged union over families, some of
//! whose schemes carry a hash selector.
use vstd::prelude::*;

verus! {

#[allow(non_camel_case_types)]
#[derive(Clone, Copy, Debug, PartialEq, Eq)]
pub enum Hash {
    Md2,
    Md4,
    Md5,
    Ripemd160,
    Sha1,
    Sha224,
    Sha256,
    Sha384,
    Sha512,
    Sha512_224,
    Sha512_256,
    Sha3_224,
    Sha3_256,
    Sha3_384,
    Sha3_512,
}

/// The hash a signature scheme is bound to: any hash, or one in particular.
#[derive(Clone, Copy, Debug, PartialEq, Eq)]
pub enum SignHash {
    Any,
    Specific(Hash),
}

#[derive(Clone, Copy, Debug, PartialEq, Eq)]
pub enum AsymmetricSignature {
    RsaPkcs1v15Sign { hash_alg: SignHash },
    RsaPkcs1v15SignRaw,
    RsaPss { hash_alg: SignHash },
    Ecdsa { hash_alg: SignHash },
    EcdsaAny,
    DeterministicEcdsa { hash_alg: SignHash },
}

#[derive(Clone, Copy, Debug, PartialEq, Eq)]
pub enum AeadWithDefaultLengthTag {
    Ccm,
    Gcm,
    Chacha20Poly1305,
}

#[derive(Clone, Copy, Debug, PartialEq, Eq)]
pub enum Aead {
    AeadWithDefaultLengthTag(AeadWithDefaultLengthTag),
    AeadWithShortenedTag { aead_alg: AeadWithDefaultLengthTag, tag_length: usize },
}

#[derive(Clone, Copy, Debug, PartialEq, Eq)]
pub enum Algorithm {
    Unspecified,
    Hash(Hash),
    Aead(Aead),
    AsymmetricSignature(AsymmetricSignature),
}

} // verus!
