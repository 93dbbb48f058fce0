use vstd::prelude::*;

verus! {

/// The single error kind of the conversion layer.
#[derive(Clone, Copy, Debug, PartialEq, Eq)]
pub enum ResponseStatus {
    /// The wire value cannot be mapped to a native value, or the reverse.
    InvalidEncoding,
}

/// The operation kinds that a request body can carry.
#[derive(Clone, Copy, Debug, PartialEq, Eq)]
pub enum Opcode {
    PsaGenerateKey,
    PsaAeadEncrypt,
    PsaVerifyHash,
    ListKeys,
}

/// The providers a key can belong to.
#[derive(Clone, Copy, Debug, PartialEq, Eq)]
pub enum ProviderId {
    Core,
    MbedCrypto,
    Pkcs11,
    Tpm,
    CryptoAuthLib,
    TrustedService,
}

/// Lifts a partial decoding into the error type of this layer: an absent
/// value is an invalid encoding.
pub open spec fn decoded<T>(o: Option<T>) -> Result<T, ResponseStatus> {
    match o {
        Some(x) => Ok(x),
        None => Err(ResponseStatus::InvalidEncoding),
    }
}

} // verus!
