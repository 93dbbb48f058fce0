use parsec_wire::convert_list_keys;
use parsec_wire::convert_psa_algorithm::{
    aead_to_proto, algorithm_from_proto, algorithm_to_proto, hash_from_proto, hash_to_proto,
};
use parsec_wire::convert_psa_key_attributes::{attributes_to_proto, ecc_family_to_proto};
use parsec_wire::dispatch::ProtobufConverter;
use parsec_wire::generated_ops::list_keys as list_keys_proto;
use parsec_wire::generated_ops::psa_aead_encrypt as aead_proto;
use parsec_wire::generated_ops::psa_algorithm as algorithm_proto;
use parsec_wire::generated_ops::psa_generate_key as generate_key_proto;
use parsec_wire::generated_ops::psa_verify_hash as verify_hash_proto;
use parsec_wire::generated_ops::{WireOperation, WireResult};
use parsec_wire::operations::list_keys;
use parsec_wire::operations::psa_aead_encrypt;
use parsec_wire::operations::psa_algorithm as alg;
use parsec_wire::operations::psa_generate_key;
use parsec_wire::operations::psa_key_attributes as attrs;
use parsec_wire::operations::psa_verify_hash;
use parsec_wire::operations::{NativeOperation, NativeResult};
use parsec_wire::requests::{Opcode, ProviderId, ResponseStatus};

fn all_flags() -> attrs::UsageFlags {
    attrs::UsageFlags {
        export: true,
        copy: true,
        cache: true,
        encrypt: true,
        decrypt: true,
        sign_message: true,
        verify_message: true,
        sign_hash: true,
        verify_hash: true,
        derive: true,
    }
}

fn rsa_attributes(bits: usize) -> attrs::Attributes {
    attrs::Attributes {
        lifetime: attrs::Lifetime::Persistent,
        key_type: attrs::Type::RsaKeyPair,
        bits,
        policy: attrs::Policy {
            usage_flags: all_flags(),
            permitted_algorithms: alg::Algorithm::AsymmetricSignature(
                alg::AsymmetricSignature::RsaPkcs1v15Sign {
                    hash_alg: alg::SignHash::Specific(alg::Hash::Sha1),
                },
            ),
        },
    }
}

fn aead_op() -> psa_aead_encrypt::Operation {
    psa_aead_encrypt::Operation {
        key_name: "test name".to_string(),
        alg: alg::Aead::AeadWithDefaultLengthTag(alg::AeadWithDefaultLengthTag::Ccm),
        nonce: vec![0x55; 12],
        additional_data: vec![0x66, 0x77, 0x88],
        plaintext: vec![0x11, 0x22, 0x33],
    }
}

#[test]
fn aead_operation_round_trips_exactly() {
    let c = ProtobufConverter::new();
    let op = NativeOperation::PsaAeadEncrypt(aead_op());
    let body = c.operation_to_wire(op.clone()).unwrap();
    let back = c.wire_to_operation(body, Opcode::PsaAeadEncrypt).unwrap();
    assert_eq!(back, op);
}

#[test]
fn generate_key_operation_round_trips_exactly() {
    let c = ProtobufConverter::new();
    let op = NativeOperation::PsaGenerateKey(psa_generate_key::Operation {
        key_name: "test name".to_string(),
        attributes: rsa_attributes(1024),
    });
    let body = c.operation_to_wire(op.clone()).unwrap();
    let back = c.wire_to_operation(body, Opcode::PsaGenerateKey).unwrap();
    assert_eq!(back, op);

    let res = c.result_to_wire(NativeResult::PsaGenerateKey(psa_generate_key::Result {})).unwrap();
    assert_eq!(res, WireResult::PsaGenerateKey(generate_key_proto::Result {}));
    let back = c.wire_to_result(res, Opcode::PsaGenerateKey).unwrap();
    assert_eq!(back, NativeResult::PsaGenerateKey(psa_generate_key::Result {}));
}

#[test]
fn verify_hash_operation_round_trips_exactly() {
    let c = ProtobufConverter::new();
    let op = NativeOperation::PsaVerifyHash(psa_verify_hash::Operation {
        key_name: "test name".to_string(),
        alg: alg::AsymmetricSignature::RsaPkcs1v15SignRaw,
        hash: vec![0x11, 0x22, 0x33],
        signature: vec![0x11, 0x22, 0x33],
    });
    let body = c.operation_to_wire(op.clone()).unwrap();
    let back = c.wire_to_operation(body, Opcode::PsaVerifyHash).unwrap();
    assert_eq!(back, op);

    let res = c.result_to_wire(NativeResult::PsaVerifyHash(psa_verify_hash::Result {})).unwrap();
    let back = c.wire_to_result(res, Opcode::PsaVerifyHash).unwrap();
    assert_eq!(back, NativeResult::PsaVerifyHash(psa_verify_hash::Result {}));
}

#[test]
fn aead_result_round_trips_exactly() {
    let c = ProtobufConverter::new();
    let res = NativeResult::PsaAeadEncrypt(psa_aead_encrypt::Result { ciphertext: vec![1, 2, 3] });
    let body = c.result_to_wire(res.clone()).unwrap();
    assert_eq!(
        body,
        WireResult::PsaAeadEncrypt(aead_proto::Result { ciphertext: vec![1, 2, 3] })
    );
    assert_eq!(c.wire_to_result(body, Opcode::PsaAeadEncrypt).unwrap(), res);
}

#[test]
fn nested_signature_hash_round_trips() {
    let a = alg::Algorithm::AsymmetricSignature(alg::AsymmetricSignature::Ecdsa {
        hash_alg: alg::SignHash::Specific(alg::Hash::Sha3_512),
    });
    let w = algorithm_to_proto(a).unwrap();
    assert_eq!(
        w,
        algorithm_proto::Algorithm {
            variant: Some(algorithm_proto::AlgorithmVariant::AsymmetricSignature(
                algorithm_proto::AsymmetricSignature {
                    variant: Some(algorithm_proto::AsymmetricSignatureVariant::Ecdsa {
                        hash_alg: Some(algorithm_proto::SignHash {
                            variant: Some(algorithm_proto::SignHashVariant::Specific(15)),
                        }),
                    }),
                }
            )),
        }
    );
    assert_eq!(algorithm_from_proto(w).unwrap(), a);
}

#[test]
fn unset_algorithm_is_rejected() {
    let mut op: aead_proto::Operation = Default::default();
    op.key_name = "test name".to_string();
    let c = ProtobufConverter::new();
    assert_eq!(
        c.wire_to_operation(WireOperation::PsaAeadEncrypt(op), Opcode::PsaAeadEncrypt),
        Err(ResponseStatus::InvalidEncoding)
    );
    let vh: verify_hash_proto::Operation = Default::default();
    assert_eq!(
        c.wire_to_operation(WireOperation::PsaVerifyHash(vh), Opcode::PsaVerifyHash),
        Err(ResponseStatus::InvalidEncoding)
    );
}

#[test]
fn unset_attributes_are_rejected() {
    let c = ProtobufConverter::new();
    let op = generate_key_proto::Operation { key_name: "k".to_string(), attributes: None };
    assert_eq!(
        c.wire_to_operation(WireOperation::PsaGenerateKey(op), Opcode::PsaGenerateKey),
        Err(ResponseStatus::InvalidEncoding)
    );
}

#[test]
fn unset_nested_discriminants_are_rejected() {
    let unset = algorithm_proto::Algorithm { variant: None };
    assert_eq!(algorithm_from_proto(unset), Err(ResponseStatus::InvalidEncoding));
    let no_hash = algorithm_proto::Algorithm {
        variant: Some(algorithm_proto::AlgorithmVariant::AsymmetricSignature(
            algorithm_proto::AsymmetricSignature {
                variant: Some(algorithm_proto::AsymmetricSignatureVariant::RsaPss { hash_alg: None }),
            },
        )),
    };
    assert_eq!(algorithm_from_proto(no_hash), Err(ResponseStatus::InvalidEncoding));
    let unset_hash = algorithm_proto::Algorithm {
        variant: Some(algorithm_proto::AlgorithmVariant::AsymmetricSignature(
            algorithm_proto::AsymmetricSignature {
                variant: Some(algorithm_proto::AsymmetricSignatureVariant::RsaPss {
                    hash_alg: Some(algorithm_proto::SignHash { variant: None }),
                }),
            },
        )),
    };
    assert_eq!(algorithm_from_proto(unset_hash), Err(ResponseStatus::InvalidEncoding));
    let unset_aead = algorithm_proto::Algorithm {
        variant: Some(algorithm_proto::AlgorithmVariant::Aead(algorithm_proto::Aead { variant: None })),
    };
    assert_eq!(algorithm_from_proto(unset_aead), Err(ResponseStatus::InvalidEncoding));
}

#[test]
fn body_of_another_kind_is_rejected() {
    let c = ProtobufConverter::new();
    let body = c.operation_to_wire(NativeOperation::PsaAeadEncrypt(aead_op())).unwrap();
    assert_eq!(
        c.wire_to_operation(body, Opcode::PsaVerifyHash),
        Err(ResponseStatus::InvalidEncoding)
    );
    let res = WireResult::PsaVerifyHash(verify_hash_proto::Result {});
    assert_eq!(c.wire_to_result(res, Opcode::ListKeys), Err(ResponseStatus::InvalidEncoding));
}

#[test]
fn hash_discriminants() {
    assert_eq!(hash_to_proto(alg::Hash::Sha256), 7);
    assert_eq!(hash_from_proto(7), Ok(alg::Hash::Sha256));
    assert_eq!(hash_from_proto(0), Err(ResponseStatus::InvalidEncoding));
    assert_eq!(hash_from_proto(16), Err(ResponseStatus::InvalidEncoding));
    assert_eq!(ecc_family_to_proto(attrs::EccFamily::Montgomery), 9);
}

#[test]
fn oversized_tag_length_has_no_wire_form() {
    let a = alg::Aead::AeadWithShortenedTag {
        aead_alg: alg::AeadWithDefaultLengthTag::Gcm,
        tag_length: usize::MAX,
    };
    assert_eq!(aead_to_proto(a), Err(ResponseStatus::InvalidEncoding));
    let ok = alg::Aead::AeadWithShortenedTag {
        aead_alg: alg::AeadWithDefaultLengthTag::Gcm,
        tag_length: 8,
    };
    assert_eq!(
        aead_to_proto(ok),
        Ok(algorithm_proto::Aead {
            variant: Some(algorithm_proto::AeadVariant::AeadWithShortenedTag(
                algorithm_proto::AeadWithShortenedTag { aead_alg: 2, tag_length: 8 }
            )),
        })
    );
}

#[test]
fn zero_bits_and_all_false_flags_are_kept() {
    let mut a = rsa_attributes(0);
    a.policy.usage_flags = attrs::UsageFlags {
        export: false,
        copy: false,
        cache: false,
        encrypt: false,
        decrypt: false,
        sign_message: false,
        verify_message: false,
        sign_hash: false,
        verify_hash: false,
        derive: false,
    };
    let w = attributes_to_proto(a).unwrap();
    assert_eq!(w.key_bits, 0);
    let flags = w.key_policy.unwrap().key_usage_flags.unwrap();
    assert!(!flags.export && !flags.derive && !flags.sign_hash);
}

#[test]
fn oversized_bits_have_no_wire_form() {
    assert_eq!(
        attributes_to_proto(rsa_attributes(usize::MAX)),
        Err(ResponseStatus::InvalidEncoding)
    );
}

#[test]
fn list_keys_result_round_trips_in_order() {
    let c = ProtobufConverter::new();
    let keys = vec![
        list_keys::KeyInfo {
            provider_id: ProviderId::MbedCrypto,
            name: "first".to_string(),
            attributes: rsa_attributes(2048),
        },
        list_keys::KeyInfo {
            provider_id: ProviderId::Tpm,
            name: "second".to_string(),
            attributes: rsa_attributes(0),
        },
    ];
    let res = NativeResult::ListKeys(list_keys::Result { keys });
    let body = c.result_to_wire(res.clone()).unwrap();
    match &body {
        WireResult::ListKeys(r) => {
            assert_eq!(r.keys.len(), 2);
            assert_eq!(r.keys[0].provider_id, 1);
            assert_eq!(r.keys[1].provider_id, 3);
            assert_eq!(r.keys[1].name, "second");
        }
        _ => panic!("wrong kind"),
    }
    assert_eq!(c.wire_to_result(body, Opcode::ListKeys).unwrap(), res);
}

#[test]
fn list_keys_entry_without_attributes_is_rejected() {
    let r = list_keys_proto::Result {
        keys: vec![list_keys_proto::KeyInfo { provider_id: 0, name: "k".to_string(), attributes: None }],
    };
    assert_eq!(convert_list_keys::result_from_proto(r), Err(ResponseStatus::InvalidEncoding));
}

#[test]
fn list_keys_unknown_provider_is_rejected() {
    let good = attributes_to_proto(rsa_attributes(1024)).unwrap();
    let r = list_keys_proto::Result {
        keys: vec![list_keys_proto::KeyInfo {
            provider_id: 99,
            name: "k".to_string(),
            attributes: Some(good),
        }],
    };
    assert_eq!(convert_list_keys::result_from_proto(r), Err(ResponseStatus::InvalidEncoding));
}

#[test]
fn list_keys_operation_is_empty_both_ways() {
    let c = ProtobufConverter::new();
    let body = c.operation_to_wire(NativeOperation::ListKeys(list_keys::Operation {})).unwrap();
    assert_eq!(body, WireOperation::ListKeys(list_keys_proto::Operation {}));
    assert_eq!(
        c.wire_to_operation(body, Opcode::ListKeys).unwrap(),
        NativeOperation::ListKeys(list_keys::Operation {})
    );
}
