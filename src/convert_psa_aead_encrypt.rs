//! Conversion of the AEAD-encrypt operation and its result. Byte buffers are
//! moved across unchanged; the algorithm is mandatory.
use vstd::prelude::*;
use crate::convert_psa_algorithm::{aead_from_proto, aead_from_wire, aead_to_proto, aead_to_wire};
use crate::generated_ops::psa_aead_encrypt as wire;
use crate::operations::psa_aead_encrypt as native;
use crate::requests::{decoded, ResponseStatus};

verus! {

pub open spec fn op_to_wire(op: native::Operation) -> Option<wire::Operation> {
    match aead_to_wire(op.alg) {
        Some(a) => Some(
            wire::Operation {
                key_name: op.key_name,
                alg: Some(a),
                nonce: op.nonce,
                additional_data: op.additional_data,
                plaintext: op.plaintext,
            },
        ),
        None => None,
    }
}

pub open spec fn op_from_wire(w: wire::Operation) -> Option<native::Operation> {
    match w.alg {
        Some(a) => match aead_from_wire(a) {
            Some(alg) => Some(
                native::Operation {
                    key_name: w.key_name,
                    alg,
                    nonce: w.nonce,
                    additional_data: w.additional_data,
                    plaintext: w.plaintext,
                },
            ),
            None => None,
        },
        None => None,
    }
}

pub open spec fn result_to_wire(r: native::Result) -> wire::Result {
    wire::Result { ciphertext: r.ciphertext }
}

pub open spec fn result_from_wire(w: wire::Result) -> native::Result {
    native::Result { ciphertext: w.ciphertext }
}

pub fn op_from_proto(w: wire::Operation) -> (r: Result<native::Operation, ResponseStatus>)
    ensures
        r == decoded(op_from_wire(w)),
{
    let alg = match w.alg {
        Some(a) => aead_from_proto(a)?,
        None => return Err(ResponseStatus::InvalidEncoding),
    };
    Ok(
        native::Operation {
            key_name: w.key_name,
            alg,
            nonce: w.nonce,
            additional_data: w.additional_data,
            plaintext: w.plaintext,
        },
    )
}

pub fn op_to_proto(op: native::Operation) -> (r: Result<wire::Operation, ResponseStatus>)
    ensures
        r == decoded(op_to_wire(op)),
{
    let alg = aead_to_proto(op.alg)?;
    Ok(
        wire::Operation {
            key_name: op.key_name,
            alg: Some(alg),
            nonce: op.nonce,
            additional_data: op.additional_data,
            plaintext: op.plaintext,
        },
    )
}

pub fn result_from_proto(w: wire::Result) -> (r: Result<native::Result, ResponseStatus>)
    ensures
        r == Ok::<native::Result, ResponseStatus>(result_from_wire(w)),
{
    Ok(native::Result { ciphertext: w.ciphertext })
}

pub fn result_to_proto(res: native::Result) -> (r: Result<wire::Result, ResponseStatus>)
    ensures
        r == Ok::<wire::Result, ResponseStatus>(result_to_wire(res)),
{
    Ok(wire::Result { ciphertext: res.ciphertext })
}

/// Decoding an encoded AEAD-encrypt operation gives back every field.
pub proof fn lemma_op_round_trip(op: native::Operation)
    ensures
        op_to_wire(op) matches Some(w) ==> op_from_wire(w) == Some(op),
{
    crate::convert_psa_algorithm::lemma_algorithm_round_trip(
        crate::operations::psa_algorithm::Algorithm::Aead(op.alg),
    );
}

/// Decoding an encoded AEAD-encrypt result gives back the ciphertext.
pub proof fn lemma_result_round_trip(res: native::Result)
    ensures
        result_from_wire(result_to_wire(res)) == res,
{
}

/// A wire operation that decodes is exactly the encoding of what it decodes to.
pub proof fn lemma_op_wire_round_trip(w: wire::Operation)
    ensures
        op_from_wire(w) matches Some(op) ==> op_to_wire(op) == Some(w),
{
    if let Some(a) = w.alg {
        crate::convert_psa_algorithm::lemma_algorithm_wire_round_trip(
            crate::generated_ops::psa_algorithm::Algorithm {
                variant: Some(crate::generated_ops::psa_algorithm::AlgorithmVariant::Aead(a)),
            },
        );
    }
}

} // verus!
