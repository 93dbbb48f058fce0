//! Conversion between the wire messages of a key-management protocol and the
//! native, strongly typed operations and results that a provider executes.
//!
//! Every conversion is a pure function whose contract is stated over spec
//! functions: `*_from_wire` says what a wire message decodes to (or that it is
//! rejected), `*_to_wire` says what a native value encodes to.
pub mod requests;
pub mod operations;
pub mod generated_ops;
pub mod convert_psa_algorithm;
pub mod convert_psa_key_attributes;
pub mod convert_psa_aead_encrypt;
pub mod convert_psa_verify_hash;
pub mod convert_psa_generate_key;
pub mod convert_list_keys;
pub mod dispatch;
