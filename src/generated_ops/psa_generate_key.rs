use vstd::prelude::*;
use crate::generated_ops::psa_key_attributes::KeyAttributes;

verus! {

#[derive(Clone, Debug, Default, PartialEq, Eq)]
pub struct Operation {
    pub key_name: String,
    pub attributes: Option<KeyAttributes>,
}

#[derive(Clone, Copy, Debug, Default, PartialEq, Eq)]
pub struct Result {}

} // verus!
