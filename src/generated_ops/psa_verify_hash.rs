use vstd::prelude::*;
use crate::generated_ops::psa_algorithm::AsymmetricSignature;

verus! {

#[derive(Clone, Debug, Default, PartialEq, Eq)]
pub struct Operation {
    pub key_name: String,
    pub alg: Option<AsymmetricSignature>,
    pub hash: Vec<u8>,
    pub signature: Vec<u8>,
}

#[derive(Clone, Copy, Debug, Default, PartialEq, Eq)]
pub struct Result {}

} // verus!
