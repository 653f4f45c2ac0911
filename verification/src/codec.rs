use vstd::prelude::*;

use crate::errors::ImgError;
use crate::json::ImagePayload;

verus! {

/// What decoding a text as standard base64 yields: `None` where the text is
/// not valid base64 with canonical padding. The result depends on the
/// characters alone.
pub uninterp spec fn b64_decode_of(s: Seq<char>) -> Option<Seq<u8>>;

/// What encoding bytes as standard base64 yields. The result depends on the
/// bytes alone.
pub uninterp spec fn b64_encode_of(b: Seq<u8>) -> Seq<char>;

/// Relies on `base64::Engine::decode` with the `STANDARD` engine: decodes
/// padded base64, rejecting any malformed input.
#[verifier::external_body]
fn b64_decode(s: &String) -> (r: Option<Vec<u8>>)
    ensures
        match r {
            Some(v) => b64_decode_of(s@) == Some(v@),
            None => b64_decode_of(s@) is None,
        },
{
    base64::Engine::decode(&base64::engine::general_purpose::STANDARD, s.as_str()).ok()
}

/// Relies on `base64::Engine::encode` with the `STANDARD` engine: encodes
/// any bytes as padded base64, which `decode` of the same engine inverts
/// (both implement RFC 4648 with canonical padding).
#[verifier::external_body]
fn b64_encode(b: &Vec<u8>) -> (r: String)
    ensures
        r@ == b64_encode_of(b@),
        b64_decode_of(r@) == Some(b@),
{
    base64::Engine::encode(&base64::engine::general_purpose::STANDARD, b.as_slice())
}

/// Decodes one payload's base64 text. Fails with `Base64DecodeError` exactly
/// when the text is not valid base64.
pub fn decode_payload(p: &ImagePayload) -> (r: Result<Vec<u8>, ImgError>)
    ensures
        match r {
            Ok(v) => b64_decode_of(p.b64_json@) == Some(v@),
            Err(e) => e == ImgError::Base64Decode && b64_decode_of(p.b64_json@) is None,
        },
{
    match b64_decode(&p.b64_json) {
        Some(v) => Ok(v),
        None => Err(ImgError::Base64Decode),
    }
}

/// Encodes bytes as one payload, as the provider does.
pub fn encode_payload(bytes: &Vec<u8>) -> (r: ImagePayload)
    ensures
        r.b64_json@ == b64_encode_of(bytes@),
        b64_decode_of(r.b64_json@) == Some(bytes@),
{
    ImagePayload { b64_json: b64_encode(bytes) }
}

/// Encoding arbitrary bytes as a payload and decoding that payload yields
/// the original bytes.
pub fn encode_decode_round_trip(bytes: &Vec<u8>) -> (r: Vec<u8>)
    ensures
        r@ == bytes@,
{
    let p = encode_payload(bytes);
    match decode_payload(&p) {
        Ok(v) => v,
        Err(_) => {
            proof {
                assert(false);
            }
            Vec::new()
        },
    }
}

} // verus!
