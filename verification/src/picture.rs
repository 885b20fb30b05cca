use vstd::prelude::*;
use crate::error::{FlowError, ProtocolViolation};

verus! {

/// `base64::DecodeError`, the reason why a text does not decode. Nothing is
/// known of its contents here.
#[verifier::external_type_specification]
#[verifier::external_body]
pub struct ExDecodeError(base64::DecodeError);

/// The bytes that a text stands for in standard base64, or `None` where the
/// text is no valid encoding.
pub uninterp spec fn base64_decoded(data: Seq<char>) -> Option<Seq<u8>>;

/// Decodes with `base64::decode`, which reads the standard alphabet with
/// padding. The contract only gives the outcome its name: it depends on the
/// text alone, and an error is returned exactly where the text does not
/// decode.
#[verifier::external_body]
fn decode_base64(data: &str) -> (res: Result<Vec<u8>, base64::DecodeError>)
    ensures
        match res {
            Ok(bytes) => base64_decoded(data@) == Some(bytes@),
            Err(_) => base64_decoded(data@) is None,
        },
{
    base64::decode(data)
}

/// What a decoding outcome means for the flow: the bytes, or the protocol
/// violation of an image that cannot be decoded.
pub open spec fn image_bytes(decoded: Option<Seq<u8>>) -> Result<Seq<u8>, FlowError> {
    match decoded {
        Some(bytes) => Ok(bytes),
        None => Err(FlowError::ProtocolError(ProtocolViolation::UndecodableImage)),
    }
}

/// The bytes of an optional buffer.
pub open spec fn bytes_of(buffer: Option<Vec<u8>>) -> Option<Seq<u8>> {
    match buffer {
        Some(bytes) => Some(bytes@),
        None => None,
    }
}

/// Turns a decoding outcome into the image's bytes or the flow's error.
pub fn decoded_image(outcome: Option<Vec<u8>>) -> (res: Result<Vec<u8>, FlowError>)
    ensures
        match res {
            Ok(bytes) => image_bytes(bytes_of(outcome)) == Ok::<Seq<u8>, FlowError>(bytes@),
            Err(e) => image_bytes(bytes_of(outcome)) == Err::<Seq<u8>, FlowError>(e),
        },
{
    match outcome {
        Some(bytes) => Ok(bytes),
        None => Err(FlowError::ProtocolError(ProtocolViolation::UndecodableImage)),
    }
}

/// Decodes the inline image of a form input.
pub fn inline_image(data: &str) -> (res: Result<Vec<u8>, FlowError>)
    ensures
        match res {
            Ok(bytes) => image_bytes(base64_decoded(data@)) == Ok::<Seq<u8>, FlowError>(bytes@),
            Err(e) => image_bytes(base64_decoded(data@)) == Err::<Seq<u8>, FlowError>(e),
        },
{
    let outcome: Option<Vec<u8>> = match decode_base64(data) {
        Ok(bytes) => Some(bytes),
        Err(_) => None,
    };
    decoded_image(outcome)
}

} // verus!
