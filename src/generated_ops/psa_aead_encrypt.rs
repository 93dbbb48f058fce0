use vstd::prelude::*;
use crate::generated_ops::psa_algorithm::Aead;

verus! {

#[derive(Clone, Debug, Default, PartialEq, Eq)]
pub struct Operation {
    pub key_name: String,
    pub alg: Option<Aead>,
    pub nonce: Vec<u8>,
    pub additional_data: Vec<u8>,
    pub plaintext: Vec<u8>,
}

#[derive(Clone, Debug, Default, PartialEq, Eq)]
pub struct Result {
    pub ciphertext: Vec<u8>,
}

} // verus!
