//! The native model of operations and results.
pub mod psa_algorithm;
pub mod psa_key_attributes;
pub mod psa_aead_encrypt;
pub mod psa_generate_key;
pub mod psa_verify_hash;
pub mod list_keys;

use vstd::prelude::*;
use crate::requests::Opcode;

verus! {

/// A native operation, tagged with its kind.
#[derive(Clone, Debug, PartialEq, Eq)]
pub enum NativeOperation {
    PsaGenerateKey(psa_generate_key::Operation),
    PsaAeadEncrypt(psa_aead_encrypt::Operation),
    PsaVerifyHash(psa_verify_hash::Operation),
    ListKeys(list_keys::Operation),
}

/// A native result, tagged with the kind of the operation that produced it.
#[derive(Clone, Debug, PartialEq, Eq)]
pub enum NativeResult {
    PsaGenerateKey(psa_generate_key::Result),
    PsaAeadEncrypt(psa_aead_encrypt::Result),
    PsaVerifyHash(psa_verify_hash::Result),
    ListKeys(list_keys::Result),
}

impl NativeOperation {
    pub open spec fn spec_opcode(&self) -> Opcode {
        match self {
            NativeOperation::PsaGenerateKey(_) => Opcode::PsaGenerateKey,
            NativeOperation::PsaAeadEncrypt(_) => Opcode::PsaAeadEncrypt,
            NativeOperation::PsaVerifyHash(_) => Opcode::PsaVerifyHash,
            NativeOperation::ListKeys(_) => Opcode::ListKeys,
        }
    }

    /// The kind of this operation.
    #[verifier::when_used_as_spec(spec_opcode)]
    pub fn opcode(&self) -> (r: Opcode)
        ensures
            r == self.spec_opcode(),
    {
        match self {
            NativeOperation::PsaGenerateKey(_) => Opcode::PsaGenerateKey,
            NativeOperation::PsaAeadEncrypt(_) => Opcode::PsaAeadEncrypt,
            NativeOperation::PsaVerifyHash(_) => Opcode::PsaVerifyHash,
            NativeOperation::ListKeys(_) => Opcode::ListKeys,
        }
    }
}

impl NativeResult {
    pub open spec fn spec_opcode(&self) -> Opcode {
        match self {
            NativeResult::PsaGenerateKey(_) => Opcode::PsaGenerateKey,
            NativeResult::PsaAeadEncrypt(_) => Opcode::PsaAeadEncrypt,
            NativeResult::PsaVerifyHash(_) => Opcode::PsaVerifyHash,
            NativeResult::ListKeys(_) => Opcode::ListKeys,
        }
    }

    /// The kind of the operation this result answers.
    #[verifier::when_used_as_spec(spec_opcode)]
    pub fn opcode(&self) -> (r: Opcode)
        ensures
            r == self.spec_opcode(),
    {
        match self {
            NativeResult::PsaGenerateKey(_) => Opcode::PsaGenerateKey,
            NativeResult::PsaAeadEncrypt(_) => Opcode::PsaAeadEncrypt,
            NativeResult::PsaVerifyHash(_) => Opcode::PsaVerifyHash,
            NativeResult::ListKeys(_) => Opcode::ListKeys,
        }
    }
}

} // verus!
