//! Enumeration of the keys a client owns.
use vstd::prelude::*;
use crate::operations::psa_key_attributes::Attributes;
use crate::requests::ProviderId;

verus! {

#[derive(Clone, Debug, PartialEq, Eq)]
pub struct KeyInfo {
    pub provider_id: ProviderId,
    pub name: String,
    pub attributes: Attributes,
}

#[derive(Clone, Copy, Debug, PartialEq, Eq)]
pub struct Operation {}

#[derive(Clone, Debug, PartialEq, Eq)]
pub struct Result {
    pub keys: Vec<KeyInfo>,
}

} // verus!
