use vstd::prelude::*;
use crate::generated_ops::psa_key_attributes::KeyAttributes;

verus! {

#[derive(Clone, Debug, Default, PartialEq, Eq)]
pub struct KeyInfo {
    pub provider_id: u32,
    pub name: String,
    pub attributes: Option<KeyAttributes>,
}

#[derive(Clone, Copy, Debug, Default, PartialEq, Eq)]
pub struct Operation {}

#[derive(Clone, Debug, Default, PartialEq, Eq)]
pub struct Result {
    pub keys: Vec<KeyInfo>,
}

} // verus!
