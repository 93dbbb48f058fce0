//! Authenticated encryption of a message with a named key.
use vstd::prelude::*;
use crate::operations::psa_algorithm::Aead;

verus! {

#[derive(Clone, Debug, PartialEq, Eq)]
pub struct Operation {
    pub key_name: String,
    pub alg: Aead,
    pub nonce: Vec<u8>,
    pub additional_data: Vec<u8>,
    pub plaintext: Vec<u8>,
}

#[derive(Clone, Debug, PartialEq, Eq)]
pub struct Result {
    pub ciphertext: Vec<u8>,
}

} // verus!
