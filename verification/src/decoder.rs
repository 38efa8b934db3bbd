//! Proof decoder: turns the raw proof byte buffer into a structured
//! proof value.
//!
//! Decoding is purely structural — the serialized encoding is
//! self-describing — and performs no cryptographic check: the decoded
//! value carries no validity guarantee until the external verification
//! procedure accepts it.
use vstd::prelude::*;

use crate::VerifyError;

verus! {

/// The self-describing serialized value type the proof stream decodes to.
#[verifier::external_type_specification]
#[verifier::external_body]
pub struct ExCborValue(ciborium::Value);

/// Whether `bytes` opens with one complete well-formed encoded value.
pub uninterp spec fn cbor_decodes(bytes: Seq<u8>) -> bool;

/// Relies on ciborium::from_reader: reading one self-describing value
/// from a byte slice consumes nothing but the slice, so whether it
/// succeeds is a pure function of the bytes.
#[verifier::external_body]
fn decode_cbor_value(bytes: &Vec<u8>) -> (r: Option<ciborium::Value>)
    ensures
        r is Some <==> cbor_decodes(bytes@),
{
    ciborium::from_reader::<ciborium::Value, &[u8]>(bytes.as_slice()).ok()
}

/// A decoded proof: an opaque structured value, to be handed to the
/// external verification procedure as it stands.
pub struct Proof {
    /// The decoded structure of the proof stream.
    pub value: ciborium::Value,
}

/// Decodes the proof byte buffer.
///
/// Purely structural and all-or-nothing: it succeeds exactly when the
/// buffer holds a well-formed encoding, and otherwise reports
/// [`VerifyError::ProofDecodeError`].
pub fn decode_proof(bytes: &Vec<u8>) -> (r: Result<Proof, VerifyError>)
    ensures
        r is Ok <==> cbor_decodes(bytes@),
        r is Err ==> r == Result::<Proof, VerifyError>::Err(VerifyError::ProofDecodeError),
{
    match decode_cbor_value(bytes) {
        Some(value) => Ok(Proof { value }),
        None => Err(VerifyError::ProofDecodeError),
    }
}

} // verus!
