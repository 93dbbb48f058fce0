use parsec_wire::convert_psa_generate_key::{
    op_from_proto, op_to_proto, result_from_proto, result_to_proto,
};
use parsec_wire::dispatch::ProtobufConverter;
use parsec_wire::generated_ops::psa_algorithm::{
    Algorithm as AlgorithmProto, AlgorithmVariant, AsymmetricSignature as AsymmetricSignatureProto,
    AsymmetricSignatureVariant, SignHash as SignHashProto, SignHashVariant,
};
use parsec_wire::generated_ops::psa_generate_key::{
    Operation as OperationProto, Result as ResultProto,
};
use parsec_wire::generated_ops::psa_key_attributes as key_attributes_proto;
use parsec_wire::operations::psa_algorithm as native_algorithm;
use parsec_wire::operations::psa_algorithm::{Algorithm, AsymmetricSignature, SignHash};
use parsec_wire::operations::psa_generate_key::{Operation, Result};
use parsec_wire::operations::psa_key_attributes::{
    Attributes, Lifetime, Policy, Type, UsageFlags,
};
use parsec_wire::operations::NativeOperation;
use parsec_wire::requests::Opcode;

const SHA1_WIRE: i32 = 5;
const PERSISTENT_WIRE: i32 = 1;

fn get_key_attrs() -> Attributes {
    Attributes {
        lifetime: Lifetime::Persistent,
        key_type: Type::RsaKeyPair,
        bits: 1024,
        policy: Policy {
            usage_flags: UsageFlags {
                export: true,
                copy: true,
                cache: true,
                encrypt: true,
                decrypt: true,
                sign_message: true,
                verify_message: true,
                sign_hash: true,
                verify_hash: true,
                derive: true,
            },
            permitted_algorithms: Algorithm::AsymmetricSignature(
                AsymmetricSignature::RsaPkcs1v15Sign { hash_alg: SignHash::Specific(native_algorithm::Hash::Sha1) },
            ),
        },
    }
}

fn get_key_attrs_proto() -> key_attributes_proto::KeyAttributes {
    key_attributes_proto::KeyAttributes {
        lifetime: PERSISTENT_WIRE,
        key_type: Some(key_attributes_proto::KeyType {
            variant: Some(key_attributes_proto::KeyTypeVariant::RsaKeyPair),
        }),
        key_bits: 1024,
        key_policy: Some(key_attributes_proto::KeyPolicy {
            key_usage_flags: Some(key_attributes_proto::UsageFlags {
                export: true,
                copy: true,
                cache: true,
                encrypt: true,
                decrypt: true,
                sign_message: true,
                verify_message: true,
                sign_hash: true,
                verify_hash: true,
                derive: true,
            }),
            key_algorithm: Some(AlgorithmProto {
                variant: Some(AlgorithmVariant::AsymmetricSignature(AsymmetricSignatureProto {
                    variant: Some(AsymmetricSignatureVariant::RsaPkcs1v15Sign {
                        hash_alg: Some(SignHashProto {
                            variant: Some(SignHashVariant::Specific(SHA1_WIRE)),
                        }),
                    }),
                })),
            }),
        }),
    }
}

#[test]
fn create_key_op_from_proto() {
    let name = "test name".to_string();
    let proto = OperationProto { key_name: name.clone(), attributes: Some(get_key_attrs_proto()) };

    let op: Operation = op_from_proto(proto).expect("Failed conversion");
    assert_eq!(op.key_name, name);
}

#[test]
fn create_key_op_to_proto() {
    let name = "test name".to_string();
    let op = Operation { key_name: name.clone(), attributes: get_key_attrs() };

    let proto: OperationProto = op_to_proto(op).expect("Failed conversion");
    assert_eq!(proto.key_name, name);
}

#[test]
fn create_key_res_from_proto() {
    let proto = ResultProto {};
    let _res: Result = result_from_proto(proto).expect("Failed conversion");
}

#[test]
fn create_key_res_to_proto() {
    let res = Result {};
    let _proto: ResultProto = result_to_proto(res).expect("Failed conversion");
}

#[test]
fn create_key_op_e2e() {
    let converter = ProtobufConverter::new();
    let name = "test name".to_string();
    let op = Operation { key_name: name, attributes: get_key_attrs() };

    let body = converter
        .operation_to_wire(NativeOperation::PsaGenerateKey(op))
        .expect("Failed to convert to body");

    let _ = converter
        .wire_to_operation(body, Opcode::PsaGenerateKey)
        .expect("Failed to convert to operation");
}

#[test]
fn create_key_attributes_decode_exactly() {
    let proto = OperationProto {
        key_name: "test name".to_string(),
        attributes: Some(get_key_attrs_proto()),
    };
    let op = op_from_proto(proto).expect("Failed conversion");
    assert_eq!(op.attributes, get_key_attrs());
}

#[test]
fn create_key_attributes_encode_exactly() {
    let op = Operation { key_name: "test name".to_string(), attributes: get_key_attrs() };
    let proto = op_to_proto(op).expect("Failed conversion");
    assert_eq!(proto.attributes, Some(get_key_attrs_proto()));
}
