//! The payload of a frame, which travels as base64.

use crate::error::{Base64Error, CaptureError};
use vstd::prelude::*;

verus! {

/// What `base64::Engine::decode` of `base64::engine::general_purpose::STANDARD` makes of
/// the encoded bytes: the decoded bytes, or what is wrong with the encoded ones.
pub uninterp spec fn base64_standard_decode(encoded: Seq<u8>) -> Result<Seq<u8>, Base64Error>;

/// `base64::Engine::decode` of `base64::engine::general_purpose::STANDARD`: the standard
/// alphabet, with padding. What it returns depends on the encoded bytes alone. The
/// variants of its error are handed on one for one.
#[verifier::external_body]
fn decode_standard(encoded: &[u8]) -> (decoded: Result<Vec<u8>, Base64Error>)
    ensures
        match decoded {
            Ok(bytes) => base64_standard_decode(encoded@) == Ok::<Seq<u8>, Base64Error>(bytes@),
            Err(error) => base64_standard_decode(encoded@) == Err::<Seq<u8>, Base64Error>(error),
        },
{
    base64::Engine::decode(&base64::engine::general_purpose::STANDARD, encoded).map_err(
        |error| match error {
            base64::DecodeError::InvalidByte(offset, byte) =>
                Base64Error::InvalidByte { offset, byte },
            base64::DecodeError::InvalidLength(length) => Base64Error::InvalidLength { length },
            base64::DecodeError::InvalidLastSymbol(offset, byte) =>
                Base64Error::InvalidLastSymbol { offset, byte },
            base64::DecodeError::InvalidPadding => Base64Error::InvalidPadding,
        },
    )
}

/// The payload of a frame, or why it has none.
pub open spec fn payload_of(encoded: Seq<u8>) -> Result<Seq<u8>, CaptureError> {
    match base64_standard_decode(encoded) {
        Ok(bytes) => Ok(bytes),
        Err(cause) => Err(CaptureError::PayloadNotBase64 { cause }),
    }
}

/// The contents of a decoded payload.
pub open spec fn payload_view(decoded: Result<Vec<u8>, CaptureError>) -> Result<
    Seq<u8>,
    CaptureError,
> {
    match decoded {
        Ok(bytes) => Ok(bytes@),
        Err(error) => Err(error),
    }
}

/// Decodes the payload of a frame.
pub fn decode_payload(encoded: &[u8]) -> (decoded: Result<Vec<u8>, CaptureError>)
    ensures
        payload_view(decoded) == payload_of(encoded@),
        match base64_standard_decode(encoded@) {
            Ok(bytes) => decoded matches Ok(payload) && payload@ == bytes,
            Err(cause) => decoded matches Err(error) && error
                == (CaptureError::PayloadNotBase64 { cause }),
        },
{
    match decode_standard(encoded) {
        Ok(bytes) => Ok(bytes),
        Err(cause) => Err(CaptureError::PayloadNotBase64 { cause }),
    }
}

} // verus!
