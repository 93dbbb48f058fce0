//! Conversion of the generate-key operation and its empty result.
use vstd::prelude::*;
use crate::convert_psa_key_attributes::{
    attributes_from_proto, attributes_from_wire, attributes_to_proto, attributes_to_wire,
};
use crate::generated_ops::psa_generate_key as wire;
use crate::operations::psa_generate_key as native;
use crate::requests::{decoded, ResponseStatus};

verus! {

pub open spec fn op_to_wire(op: native::Operation) -> Option<wire::Operation> {
    match attributes_to_wire(op.attributes) {
        Some(a) => Some(wire::Operation { key_name: op.key_name, attributes: Some(a) }),
        None => None,
    }
}

pub open spec fn op_from_wire(w: wire::Operation) -> Option<native::Operation> {
    match w.attributes {
        Some(a) => match attributes_from_wire(a) {
            Some(attributes) => Some(native::Operation { key_name: w.key_name, attributes }),
            None => None,
        },
        None => None,
    }
}

pub fn op_from_proto(w: wire::Operation) -> (r: Result<native::Operation, ResponseStatus>)
    ensures
        r == decoded(op_from_wire(w)),
{
    let attributes = match w.attributes {
        Some(a) => attributes_from_proto(a)?,
        None => return Err(ResponseStatus::InvalidEncoding),
    };
    Ok(native::Operation { key_name: w.key_name, attributes })
}

pub fn op_to_proto(op: native::Operation) -> (r: Result<wire::Operation, ResponseStatus>)
    ensures
        r == decoded(op_to_wire(op)),
{
    let attributes = attributes_to_proto(op.attributes)?;
    Ok(wire::Operation { key_name: op.key_name, attributes: Some(attributes) })
}

pub fn result_from_proto(w: wire::Result) -> (r: Result<native::Result, ResponseStatus>)
    ensures
        r == Ok::<native::Result, ResponseStatus>(native::Result {  }),
{
    Ok(native::Result {  })
}

pub fn result_to_proto(res: native::Result) -> (r: Result<wire::Result, ResponseStatus>)
    ensures
        r == Ok::<wire::Result, ResponseStatus>(wire::Result {  }),
{
    Ok(wire::Result {  })
}

/// Decoding an encoded generate-key operation gives back the name and the
/// attributes.
pub proof fn lemma_op_round_trip(op: native::Operation)
    ensures
        op_to_wire(op) matches Some(w) ==> op_from_wire(w) == Some(op),
{
    crate::convert_psa_key_attributes::lemma_attributes_round_trip(op.attributes);
}

/// A wire operation that decodes is exactly the encoding of what it decodes to.
pub proof fn lemma_op_wire_round_trip(w: wire::Operation)
    ensures
        op_from_wire(w) matches Some(op) ==> op_to_wire(op) == Some(w),
{
    if let Some(a) = w.attributes {
        crate::convert_psa_key_attributes::lemma_attributes_wire_round_trip(a);
    }
}

} // verus!
