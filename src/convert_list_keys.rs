//! Conversion of the list-keys operation and of its result, a sequence of key
//! descriptions converted entry by entry, in order.
use vstd::prelude::*;
use crate::convert_psa_key_attributes::{
    attributes_from_proto, attributes_from_wire, attributes_to_proto, attributes_to_wire,
};
use crate::generated_ops::list_keys as wire;
use crate::operations::list_keys as native;
use crate::requests::{decoded, ProviderId, ResponseStatus};

verus! {

pub open spec fn provider_id_to_wire(p: ProviderId) -> u32 {
    match p {
        ProviderId::Core => 0,
        ProviderId::MbedCrypto => 1,
        ProviderId::Pkcs11 => 2,
        ProviderId::Tpm => 3,
        ProviderId::CryptoAuthLib => 4,
        ProviderId::TrustedService => 5,
    }
}

pub open spec fn provider_id_from_wire(v: u32) -> Option<ProviderId> {
    if v == 0 {
        Some(ProviderId::Core)
    } else if v == 1 {
        Some(ProviderId::MbedCrypto)
    } else if v == 2 {
        Some(ProviderId::Pkcs11)
    } else if v == 3 {
        Some(ProviderId::Tpm)
    } else if v == 4 {
        Some(ProviderId::CryptoAuthLib)
    } else if v == 5 {
        Some(ProviderId::TrustedService)
    } else {
        None
    }
}

pub open spec fn key_info_to_wire(k: native::KeyInfo) -> Option<wire::KeyInfo> {
    match attributes_to_wire(k.attributes) {
        Some(a) => Some(
            wire::KeyInfo {
                provider_id: provider_id_to_wire(k.provider_id),
                name: k.name,
                attributes: Some(a),
            },
        ),
        None => None,
    }
}

pub open spec fn key_info_from_wire(k: wire::KeyInfo) -> Option<native::KeyInfo> {
    match (provider_id_from_wire(k.provider_id), k.attributes) {
        (Some(p), Some(a)) => match attributes_from_wire(a) {
            Some(attributes) => Some(native::KeyInfo { provider_id: p, name: k.name, attributes }),
            None => None,
        },
        _ => None,
    }
}

/// `ns` is `ws` decoded entry by entry.
pub open spec fn keys_from_wire(ws: Seq<wire::KeyInfo>, ns: Seq<native::KeyInfo>) -> bool {
    &&& ws.len() == ns.len()
    &&& forall|i: int| 0 <= i < ws.len() ==> key_info_from_wire(#[trigger] ws[i]) == Some(ns[i])
}

/// `ws` is `ns` encoded entry by entry.
pub open spec fn keys_to_wire(ns: Seq<native::KeyInfo>, ws: Seq<wire::KeyInfo>) -> bool {
    &&& ws.len() == ns.len()
    &&& forall|i: int| 0 <= i < ns.len() ==> key_info_to_wire(#[trigger] ns[i]) == Some(ws[i])
}

pub open spec fn all_keys_decode(ws: Seq<wire::KeyInfo>) -> bool {
    forall|i: int| 0 <= i < ws.len() ==> (#[trigger] key_info_from_wire(ws[i])) is Some
}

pub open spec fn all_keys_encode(ns: Seq<native::KeyInfo>) -> bool {
    forall|i: int| 0 <= i < ns.len() ==> (#[trigger] key_info_to_wire(ns[i])) is Some
}

pub fn provider_id_to_proto(p: ProviderId) -> (r: u32)
    ensures
        r == provider_id_to_wire(p),
{
    match p {
        ProviderId::Core => 0,
        ProviderId::MbedCrypto => 1,
        ProviderId::Pkcs11 => 2,
        ProviderId::Tpm => 3,
        ProviderId::CryptoAuthLib => 4,
        ProviderId::TrustedService => 5,
    }
}

pub fn provider_id_from_proto(v: u32) -> (r: Result<ProviderId, ResponseStatus>)
    ensures
        r == decoded(provider_id_from_wire(v)),
{
    match v {
        0 => Ok(ProviderId::Core),
        1 => Ok(ProviderId::MbedCrypto),
        2 => Ok(ProviderId::Pkcs11),
        3 => Ok(ProviderId::Tpm),
        4 => Ok(ProviderId::CryptoAuthLib),
        5 => Ok(ProviderId::TrustedService),
        _ => Err(ResponseStatus::InvalidEncoding),
    }
}

pub fn key_info_from_proto(k: &wire::KeyInfo) -> (r: Result<native::KeyInfo, ResponseStatus>)
    ensures
        r == decoded(key_info_from_wire(*k)),
{
    let p = provider_id_from_proto(k.provider_id)?;
    let attributes = match k.attributes {
        Some(a) => attributes_from_proto(a)?,
        None => return Err(ResponseStatus::InvalidEncoding),
    };
    Ok(native::KeyInfo { provider_id: p, name: k.name.clone(), attributes })
}

pub fn key_info_to_proto(k: &native::KeyInfo) -> (r: Result<wire::KeyInfo, ResponseStatus>)
    ensures
        r == decoded(key_info_to_wire(*k)),
{
    let a = attributes_to_proto(k.attributes)?;
    Ok(
        wire::KeyInfo {
            provider_id: provider_id_to_proto(k.provider_id),
            name: k.name.clone(),
            attributes: Some(a),
        },
    )
}

pub fn op_from_proto(w: wire::Operation) -> (r: Result<native::Operation, ResponseStatus>)
    ensures
        r == Ok::<native::Operation, ResponseStatus>(native::Operation {  }),
{
    Ok(native::Operation {  })
}

pub fn op_to_proto(op: native::Operation) -> (r: Result<wire::Operation, ResponseStatus>)
    ensures
        r == Ok::<wire::Operation, ResponseStatus>(wire::Operation {  }),
{
    Ok(wire::Operation {  })
}

/// Decodes every key description; one that does not decode rejects the whole
/// result.
pub fn result_from_proto(w: wire::Result) -> (r: Result<native::Result, ResponseStatus>)
    ensures
        r is Ok <==> all_keys_decode(w.keys@),
        r matches Ok(n) ==> keys_from_wire(w.keys@, n.keys@),
{
    let mut keys: Vec<native::KeyInfo> = Vec::new();
    let mut i: usize = 0;
    while i < w.keys.len()
        invariant
            i <= w.keys@.len(),
            keys@.len() == i,
            forall|j: int| 0 <= j < i ==> key_info_from_wire(#[trigger] w.keys@[j]) == Some(keys@[j]),
        decreases w.keys@.len() - i,
    {
        match key_info_from_proto(&w.keys[i]) {
            Ok(k) => keys.push(k),
            Err(e) => {
                assert(key_info_from_wire(w.keys@[i as int]) is None);
                return Err(e);
            },
        }
        i += 1;
    }
    Ok(native::Result { keys })
}

/// Encodes every key description; one without wire form rejects the whole
/// result.
pub fn result_to_proto(res: native::Result) -> (r: Result<wire::Result, ResponseStatus>)
    ensures
        r is Ok <==> all_keys_encode(res.keys@),
        r matches Ok(w) ==> keys_to_wire(res.keys@, w.keys@),
{
    let mut keys: Vec<wire::KeyInfo> = Vec::new();
    let mut i: usize = 0;
    while i < res.keys.len()
        invariant
            i <= res.keys@.len(),
            keys@.len() == i,
            forall|j: int| 0 <= j < i ==> key_info_to_wire(#[trigger] res.keys@[j]) == Some(keys@[j]),
        decreases res.keys@.len() - i,
    {
        match key_info_to_proto(&res.keys[i]) {
            Ok(k) => keys.push(k),
            Err(e) => {
                assert(key_info_to_wire(res.keys@[i as int]) is None);
                return Err(e);
            },
        }
        i += 1;
    }
    Ok(wire::Result { keys })
}

/// Decoding an encoded key description gives it back.
pub proof fn lemma_key_info_round_trip(k: native::KeyInfo)
    ensures
        key_info_to_wire(k) matches Some(w) ==> key_info_from_wire(w) == Some(k),
{
    crate::convert_psa_key_attributes::lemma_attributes_round_trip(k.attributes);
}

/// Decoding an encoded list of keys gives back the same keys in the same order.
pub proof fn lemma_result_round_trip(ns: Seq<native::KeyInfo>, ws: Seq<wire::KeyInfo>)
    requires
        keys_to_wire(ns, ws),
    ensures
        keys_from_wire(ws, ns),
{
    assert forall|i: int| 0 <= i < ws.len() implies key_info_from_wire(#[trigger] ws[i]) == Some(
        ns[i],
    ) by {
        assert(key_info_to_wire(ns[i]) == Some(ws[i]));
        lemma_key_info_round_trip(ns[i]);
    }
}

} // verus!
