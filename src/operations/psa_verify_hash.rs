//! Verification of a signature over a hash with a named public key.
use vstd::prelude::*;
use crate::operations::psa_algorithm::AsymmetricSignature;

verus! {

#[derive(Clone, Debug, PartialEq, Eq)]
pub struct Operation {
    pub key_name: String,
    pub alg: AsymmetricSignature,
    pub hash: Vec<u8>,
    pub signature: Vec<u8>,
}

/// Verification has no payload in its result: success is the answer.
#[derive(Clone, Copy, Debug, PartialEq, Eq)]
pub struct Result {}

} // verus!
