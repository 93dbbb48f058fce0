//! Generation of a named key with given attributes.
use vstd::prelude::*;
use crate::operations::psa_key_attributes::Attributes;

verus! {

#[derive(Clone, Debug, PartialEq, Eq)]
pub struct Operation {
    pub key_name: String,
    pub attributes: Attributes,
}

/// Key generation has no payload in its result.
#[derive(Clone, Copy, Debug, PartialEq, Eq)]
pub struct Result {}

} // verus!
