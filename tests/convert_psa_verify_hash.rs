use parsec_wire::convert_psa_verify_hash::{
    op_from_proto, op_to_proto, result_from_proto, result_to_proto,
};
use parsec_wire::dispatch::ProtobufConverter;
use parsec_wire::generated_ops::psa_algorithm as algorithm_proto;
use parsec_wire::generated_ops::psa_verify_hash::{
    Operation as OperationProto, Result as ResultProto,
};
use parsec_wire::operations::psa_algorithm::AsymmetricSignature;
use parsec_wire::operations::psa_verify_hash::{Operation, Result};
use parsec_wire::operations::{NativeOperation, NativeResult};
use parsec_wire::requests::Opcode;

const SHA1_WIRE: i32 = 5;

#[test]
fn asym_proto_to_op() {
    let mut proto: OperationProto = Default::default();
    let hash = vec![0x11, 0x22, 0x33];
    let key_name = "test name".to_string();
    let signature = vec![0x11, 0x22, 0x33];
    proto.hash = hash.clone();
    proto.alg = Some(algorithm_proto::AsymmetricSignature {
        variant: Some(algorithm_proto::AsymmetricSignatureVariant::RsaPkcs1v15Sign {
            hash_alg: Some(algorithm_proto::SignHash {
                variant: Some(algorithm_proto::SignHashVariant::Specific(SHA1_WIRE)),
            }),
        }),
    });
    proto.key_name = key_name.clone();
    proto.signature = signature.clone();

    let op: Operation = op_from_proto(proto).expect("Failed to convert");

    assert_eq!(op.hash, hash);
    assert_eq!(op.key_name, key_name);
    assert_eq!(op.signature, signature);
}

#[test]
fn asym_op_to_proto() {
    let hash = vec![0x11, 0x22, 0x33];
    let key_name = "test name".to_string();
    let signature = vec![0x11, 0x22, 0x33];

    let op = Operation {
        hash: hash.clone(),
        alg: AsymmetricSignature::RsaPkcs1v15SignRaw,
        key_name: key_name.clone(),
        signature: signature.clone(),
    };

    let proto: OperationProto = op_to_proto(op).expect("Failed to convert");

    assert_eq!(proto.hash, hash);
    assert_eq!(proto.key_name, key_name);
    assert_eq!(proto.signature, signature);
}

#[test]
fn asym_proto_to_resp() {
    let proto: ResultProto = Default::default();

    let _result: Result = result_from_proto(proto).expect("Failed to convert");
}

#[test]
fn asym_resp_to_proto() {
    let result = Result {};

    let _proto: ResultProto = result_to_proto(result).expect("Failed to convert");
}

#[test]
fn op_asym_sign_e2e() {
    let converter = ProtobufConverter::new();
    let op = Operation {
        hash: vec![0x11, 0x22, 0x33],
        alg: AsymmetricSignature::RsaPkcs1v15SignRaw,
        key_name: "test name".to_string(),
        signature: vec![0x11, 0x22, 0x33],
    };
    let body = converter
        .operation_to_wire(NativeOperation::PsaVerifyHash(op))
        .expect("Failed to convert request");

    assert!(converter.wire_to_operation(body, Opcode::PsaVerifyHash).is_ok());
}

#[test]
fn resp_asym_sign_e2e() {
    let converter = ProtobufConverter::new();
    let result = Result {};
    let body = converter
        .result_to_wire(NativeResult::PsaVerifyHash(result))
        .expect("Failed to convert request");

    assert!(converter.wire_to_result(body, Opcode::PsaVerifyHash).is_ok());
}
