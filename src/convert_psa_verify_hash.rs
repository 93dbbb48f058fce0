//! Conversion of the verify-hash operation and its empty result.
use vstd::prelude::*;
use crate::convert_psa_algorithm::{
    asymmetric_signature_from_proto, asymmetric_signature_from_wire, asymmetric_signature_to_proto,
    asymmetric_signature_to_wire,
};
use crate::generated_ops::psa_verify_hash as wire;
use crate::operations::psa_verify_hash as native;
use crate::requests::{decoded, ResponseStatus};

verus! {

pub open spec fn op_to_wire(op: native::Operation) -> wire::Operation {
    wire::Operation {
        key_name: op.key_name,
        alg: Some(asymmetric_signature_to_wire(op.alg)),
        hash: op.hash,
        signature: op.signature,
    }
}

pub open spec fn op_from_wire(w: wire::Operation) -> Option<native::Operation> {
    match w.alg {
        Some(a) => match asymmetric_signature_from_wire(a) {
            Some(alg) => Some(
                native::Operation { key_name: w.key_name, alg, hash: w.hash, signature: w.signature },
            ),
            None => None,
        },
        None => None,
    }
}

pub fn op_from_proto(w: wire::Operation) -> (r: Result<native::Operation, ResponseStatus>)
    ensures
        r == decoded(op_from_wire(w)),
{
    let alg = match w.alg {
        Some(a) => asymmetric_signature_from_proto(a)?,
        None => return Err(ResponseStatus::InvalidEncoding),
    };
    Ok(native::Operation { key_name: w.key_name, alg, hash: w.hash, signature: w.signature })
}

pub fn op_to_proto(op: native::Operation) -> (r: Result<wire::Operation, ResponseStatus>)
    ensures
        r == Ok::<wire::Operation, ResponseStatus>(op_to_wire(op)),
{
    Ok(
        wire::Operation {
            key_name: op.key_name,
            alg: Some(asymmetric_signature_to_proto(op.alg)),
            hash: op.hash,
            signature: op.signature,
        },
    )
}

pub fn result_from_proto(w: wire::Result) -> (r: Result<native::Result, ResponseStatus>)
    ensures
        r == Ok::<native::Result, ResponseStatus>(native::Result {  }),
{
    Ok(native::Result {  })
}

pub fn result_to_proto(res: native::Result) -> (r: Result<wire::Result, ResponseStatus>)
    ensures
        r == Ok::<wire::Result, ResponseStatus>(wire::Result {  }),
{
    Ok(wire::Result {  })
}

/// Decoding an encoded verify-hash operation gives back every field, the
/// hash selector of the signature scheme included.
pub proof fn lemma_op_round_trip(op: native::Operation)
    ensures
        op_from_wire(op_to_wire(op)) == Some(op),
{
    crate::convert_psa_algorithm::lemma_algorithm_round_trip(
        crate::operations::psa_algorithm::Algorithm::AsymmetricSignature(op.alg),
    );
}

/// A wire operation that decodes is exactly the encoding of what it decodes to.
pub proof fn lemma_op_wire_round_trip(w: wire::Operation)
    ensures
        op_from_wire(w) matches Some(op) ==> op_to_wire(op) == w,
{
    if let Some(a) = w.alg {
        crate::convert_psa_algorithm::lemma_algorithm_wire_round_trip(
            crate::generated_ops::psa_algorithm::Algorithm {
                variant: Some(
                    crate::generated_ops::psa_algorithm::AlgorithmVariant::AsymmetricSignature(a),
                ),
            },
        );
    }
}

} // verus!
