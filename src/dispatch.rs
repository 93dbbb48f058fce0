//! The opcode dispatch table: each operation kind has exactly one converter
//! pair, selected by an exhaustive match on the kind.
use vstd::prelude::*;
use crate::convert_list_keys as lk;
use crate::convert_psa_aead_encrypt as ae;
use crate::convert_psa_generate_key as gk;
use crate::convert_psa_verify_hash as vh;
use crate::generated_ops::{list_keys, WireOperation, WireResult};
use crate::operations::{NativeOperation, NativeResult};
use crate::requests::{decoded, Opcode, ResponseStatus};

verus! {

/// What a native operation encodes to, if it has a wire form.
pub open spec fn operation_to_wire(op: NativeOperation) -> Option<WireOperation> {
    match op {
        NativeOperation::PsaGenerateKey(o) => match gk::op_to_wire(o) {
            Some(w) => Some(WireOperation::PsaGenerateKey(w)),
            None => None,
        },
        NativeOperation::PsaAeadEncrypt(o) => match ae::op_to_wire(o) {
            Some(w) => Some(WireOperation::PsaAeadEncrypt(w)),
            None => None,
        },
        NativeOperation::PsaVerifyHash(o) => Some(WireOperation::PsaVerifyHash(vh::op_to_wire(o))),
        NativeOperation::ListKeys(_) => Some(WireOperation::ListKeys(list_keys::Operation {  })),
    }
}

/// What a request body decodes to when the transport tags it with `opcode`;
/// a body of another kind than the opcode names is rejected.
pub open spec fn operation_from_wire(w: WireOperation, opcode: Opcode) -> Option<NativeOperation> {
    match (w, opcode) {
        (WireOperation::PsaGenerateKey(o), Opcode::PsaGenerateKey) => match gk::op_from_wire(o) {
            Some(n) => Some(NativeOperation::PsaGenerateKey(n)),
            None => None,
        },
        (WireOperation::PsaAeadEncrypt(o), Opcode::PsaAeadEncrypt) => match ae::op_from_wire(o) {
            Some(n) => Some(NativeOperation::PsaAeadEncrypt(n)),
            None => None,
        },
        (WireOperation::PsaVerifyHash(o), Opcode::PsaVerifyHash) => match vh::op_from_wire(o) {
            Some(n) => Some(NativeOperation::PsaVerifyHash(n)),
            None => None,
        },
        (WireOperation::ListKeys(_), Opcode::ListKeys) => Some(
            NativeOperation::ListKeys(crate::operations::list_keys::Operation {  }),
        ),
        _ => None,
    }
}

/// Whether a response body tagged with `opcode` decodes.
pub open spec fn result_decodes(w: WireResult, opcode: Opcode) -> bool {
    match (w, opcode) {
        (WireResult::PsaGenerateKey(_), Opcode::PsaGenerateKey) => true,
        (WireResult::PsaAeadEncrypt(_), Opcode::PsaAeadEncrypt) => true,
        (WireResult::PsaVerifyHash(_), Opcode::PsaVerifyHash) => true,
        (WireResult::ListKeys(x), Opcode::ListKeys) => lk::all_keys_decode(x.keys@),
        _ => false,
    }
}

/// `n` is what the response body `w` decodes to.
pub open spec fn result_from_wire(w: WireResult, n: NativeResult) -> bool {
    match (w, n) {
        (WireResult::PsaGenerateKey(_), NativeResult::PsaGenerateKey(_)) => true,
        (WireResult::PsaAeadEncrypt(x), NativeResult::PsaAeadEncrypt(y)) => y
            == ae::result_from_wire(x),
        (WireResult::PsaVerifyHash(_), NativeResult::PsaVerifyHash(_)) => true,
        (WireResult::ListKeys(x), NativeResult::ListKeys(y)) => lk::keys_from_wire(
            x.keys@,
            y.keys@,
        ),
        _ => false,
    }
}

/// Whether a native result has a wire form.
pub open spec fn result_encodes(n: NativeResult) -> bool {
    match n {
        NativeResult::ListKeys(x) => lk::all_keys_encode(x.keys@),
        _ => true,
    }
}

/// `w` is what the native result `n` encodes to.
pub open spec fn result_to_wire(n: NativeResult, w: WireResult) -> bool {
    match (n, w) {
        (NativeResult::PsaGenerateKey(_), WireResult::PsaGenerateKey(_)) => true,
        (NativeResult::PsaAeadEncrypt(x), WireResult::PsaAeadEncrypt(y)) => y
            == ae::result_to_wire(x),
        (NativeResult::PsaVerifyHash(_), WireResult::PsaVerifyHash(_)) => true,
        (NativeResult::ListKeys(x), WireResult::ListKeys(y)) => lk::keys_to_wire(
            x.keys@,
            y.keys@,
        ),
        _ => false,
    }
}

/// A stateless converter between native values and wire messages.
#[derive(Clone, Copy, Debug, Default, PartialEq, Eq)]
pub struct ProtobufConverter {}

impl ProtobufConverter {
    pub fn new() -> (r: ProtobufConverter)
        ensures
            r == (ProtobufConverter {  }),
    {
        ProtobufConverter {  }
    }

    /// Encodes a native operation with the message shape of its kind.
    pub fn operation_to_wire(&self, op: NativeOperation) -> (r: Result<WireOperation, ResponseStatus>)
        ensures
            r == decoded(operation_to_wire(op)),
    {
        match op {
            NativeOperation::PsaGenerateKey(o) => Ok(WireOperation::PsaGenerateKey(gk::op_to_proto(o)?)),
            NativeOperation::PsaAeadEncrypt(o) => Ok(WireOperation::PsaAeadEncrypt(ae::op_to_proto(o)?)),
            NativeOperation::PsaVerifyHash(o) => Ok(WireOperation::PsaVerifyHash(vh::op_to_proto(o)?)),
            NativeOperation::ListKeys(o) => Ok(WireOperation::ListKeys(lk::op_to_proto(o)?)),
        }
    }

    /// Decodes a request body that the transport tagged with `opcode`.
    pub fn wire_to_operation(&self, body: WireOperation, opcode: Opcode) -> (r: Result<
        NativeOperation,
        ResponseStatus,
    >)
        ensures
            r == decoded(operation_from_wire(body, opcode)),
    {
        match (body, opcode) {
            (WireOperation::PsaGenerateKey(o), Opcode::PsaGenerateKey) => {
                Ok(NativeOperation::PsaGenerateKey(gk::op_from_proto(o)?))
            },
            (WireOperation::PsaAeadEncrypt(o), Opcode::PsaAeadEncrypt) => {
                Ok(NativeOperation::PsaAeadEncrypt(ae::op_from_proto(o)?))
            },
            (WireOperation::PsaVerifyHash(o), Opcode::PsaVerifyHash) => {
                Ok(NativeOperation::PsaVerifyHash(vh::op_from_proto(o)?))
            },
            (WireOperation::ListKeys(o), Opcode::ListKeys) => {
                Ok(NativeOperation::ListKeys(lk::op_from_proto(o)?))
            },
            _ => Err(ResponseStatus::InvalidEncoding),
        }
    }

    /// Encodes a native result with the message shape of its kind.
    pub fn result_to_wire(&self, res: NativeResult) -> (r: Result<WireResult, ResponseStatus>)
        ensures
            r is Ok <==> result_encodes(res),
            r matches Ok(w) ==> result_to_wire(res, w),
    {
        match res {
            NativeResult::PsaGenerateKey(x) => Ok(WireResult::PsaGenerateKey(gk::result_to_proto(x)?)),
            NativeResult::PsaAeadEncrypt(x) => Ok(WireResult::PsaAeadEncrypt(ae::result_to_proto(x)?)),
            NativeResult::PsaVerifyHash(x) => Ok(WireResult::PsaVerifyHash(vh::result_to_proto(x)?)),
            NativeResult::ListKeys(x) => Ok(WireResult::ListKeys(lk::result_to_proto(x)?)),
        }
    }

    /// Decodes a response body that the transport tagged with `opcode`.
    pub fn wire_to_result(&self, body: WireResult, opcode: Opcode) -> (r: Result<
        NativeResult,
        ResponseStatus,
    >)
        ensures
            r is Ok <==> result_decodes(body, opcode),
            r matches Ok(n) ==> n.opcode() == opcode && result_from_wire(body, n),
    {
        match (body, opcode) {
            (WireResult::PsaGenerateKey(x), Opcode::PsaGenerateKey) => {
                Ok(NativeResult::PsaGenerateKey(gk::result_from_proto(x)?))
            },
            (WireResult::PsaAeadEncrypt(x), Opcode::PsaAeadEncrypt) => {
                Ok(NativeResult::PsaAeadEncrypt(ae::result_from_proto(x)?))
            },
            (WireResult::PsaVerifyHash(x), Opcode::PsaVerifyHash) => {
                Ok(NativeResult::PsaVerifyHash(vh::result_from_proto(x)?))
            },
            (WireResult::ListKeys(x), Opcode::ListKeys) => {
                Ok(NativeResult::ListKeys(lk::result_from_proto(x)?))
            },
            _ => Err(ResponseStatus::InvalidEncoding),
        }
    }
}

/// For every kind of operation, decoding an encoded operation under its own
/// opcode gives it back.
pub proof fn lemma_operation_round_trip(op: NativeOperation)
    ensures
        operation_to_wire(op) matches Some(w) ==> operation_from_wire(w, op.opcode()) == Some(op),
{
    match op {
        NativeOperation::PsaGenerateKey(o) => gk::lemma_op_round_trip(o),
        NativeOperation::PsaAeadEncrypt(o) => ae::lemma_op_round_trip(o),
        NativeOperation::PsaVerifyHash(o) => vh::lemma_op_round_trip(o),
        NativeOperation::ListKeys(_) => {},
    }
}

/// For every kind of result, decoding an encoded result under its own opcode
/// succeeds and gives it back.
pub proof fn lemma_result_round_trip(n: NativeResult, w: WireResult)
    requires
        result_to_wire(n, w),
    ensures
        result_decodes(w, n.opcode()),
        result_from_wire(w, n),
{
    match (n, w) {
        (NativeResult::ListKeys(x), WireResult::ListKeys(y)) => {
            lk::lemma_result_round_trip(x.keys@, y.keys@);
        },
        _ => {},
    }
}

/// A body of one kind is never accepted under the opcode of another.
pub proof fn lemma_opcode_mismatch_rejected(w: WireOperation, v: WireResult, opcode: Opcode)
    ensures
        operation_from_wire(w, opcode) matches Some(n) ==> n.opcode() == opcode,
        result_decodes(v, opcode) ==> (match v {
            WireResult::PsaGenerateKey(_) => opcode == Opcode::PsaGenerateKey,
            WireResult::PsaAeadEncrypt(_) => opcode == Opcode::PsaAeadEncrypt,
            WireResult::PsaVerifyHash(_) => opcode == Opcode::PsaVerifyHash,
            WireResult::ListKeys(_) => opcode == Opcode::ListKeys,
        }),
{
}

/// A request whose algorithm or attributes block, or the discriminant inside
/// it, is unset is rejected, never given a default.
pub proof fn lemma_unset_mandatory_field_rejected(
    a: crate::generated_ops::psa_aead_encrypt::Operation,
    v: crate::generated_ops::psa_verify_hash::Operation,
    g: crate::generated_ops::psa_generate_key::Operation,
)
    ensures
        (a.alg matches Some(x) ==> x.variant is None) ==> operation_from_wire(
            WireOperation::PsaAeadEncrypt(a),
            Opcode::PsaAeadEncrypt,
        ) is None,
        (v.alg matches Some(x) ==> x.variant is None) ==> operation_from_wire(
            WireOperation::PsaVerifyHash(v),
            Opcode::PsaVerifyHash,
        ) is None,
        (g.attributes matches Some(x) ==> x.key_type is None || x.key_policy is None) ==> operation_from_wire(
            WireOperation::PsaGenerateKey(g),
            Opcode::PsaGenerateKey,
        ) is None,
        (g.attributes matches Some(x) ==> (x.key_policy matches Some(p) && p.key_algorithm is None)) ==> operation_from_wire(
            WireOperation::PsaGenerateKey(g),
            Opcode::PsaGenerateKey,
        ) is None,
{
}

/// A request body that decodes under an opcode is exactly the encoding of the
/// operation it decodes to: decoding loses nothing.
pub proof fn lemma_operation_wire_round_trip(w: WireOperation, opcode: Opcode)
    ensures
        operation_from_wire(w, opcode) matches Some(op) ==> operation_to_wire(op) == Some(w),
{
    match w {
        WireOperation::PsaGenerateKey(o) => gk::lemma_op_wire_round_trip(o),
        WireOperation::PsaAeadEncrypt(o) => ae::lemma_op_wire_round_trip(o),
        WireOperation::PsaVerifyHash(o) => vh::lemma_op_wire_round_trip(o),
        WireOperation::ListKeys(_) => {},
    }
}

} // verus!
