//! Checking what came back from fetching a Markdown document over HTTPS.

use vstd::prelude::*;
use vstd::utf8::*;

verus! {

/// Largest body, in bytes, that is accepted as an architecture document.
pub const MAX_ARCHITECTURE_BYTES: usize = 2 * 1024 * 1024;

/// Why fetching an architecture document failed.
#[derive(Debug, PartialEq, Eq, Structural)]
pub enum FetchError {
    /// The request could not be sent or its body could not be read.
    Request,
    /// The server answered with a status outside `200..300`.
    UpstreamStatus,
    /// The body is longer than [`MAX_ARCHITECTURE_BYTES`].
    TooLarge,
    /// The body is not valid UTF-8.
    NotUtf8,
}

/// Whether an HTTP status code is a success (`200..300`).
pub open spec fn is_success_status(status: u16) -> bool {
    200 <= status < 300
}

/// What [`validate_architecture_response`] gives for a status and body.
pub open spec fn validated_response(status: u16, body: Seq<u8>) -> Result<Seq<char>, FetchError> {
    if body.len() > MAX_ARCHITECTURE_BYTES {
        Err(FetchError::TooLarge)
    } else if !is_success_status(status) {
        Err(FetchError::UpstreamStatus)
    } else if !valid_utf8(body) {
        Err(FetchError::NotUtf8)
    } else {
        Ok(decode_utf8(body))
    }
}

/// Only a success status is ever accepted, and any other status, on a body
/// within the size limit, is refused as an upstream failure; a body over the
/// limit is refused whatever the status; an accepted body is the text that
/// its bytes encode.
pub proof fn law_only_success_statuses_accepted(status: u16, body: Seq<u8>)
    ensures
        validated_response(status, body) is Ok ==> 200 <= status && status < 300,
        body.len() <= 2 * 1024 * 1024 && !(200 <= status && status < 300) ==> validated_response(
            status,
            body,
        ) == Err::<Seq<char>, FetchError>(FetchError::UpstreamStatus),
        body.len() > 2 * 1024 * 1024 ==> validated_response(status, body) == Err::<
            Seq<char>,
            FetchError,
        >(FetchError::TooLarge),
        validated_response(status, body) matches Ok(text) ==> encode_utf8(text) == body,
{
    if validated_response(status, body) is Ok {
        decode_utf8_encode_utf8(body);
    }
}

/// std's `String::from_utf8`: succeeds exactly on valid UTF-8, and the
/// string it builds holds the given bytes.
#[verifier::external_body]
fn string_from_utf8(bytes: Vec<u8>) -> (res: Option<String>)
    ensures
        res is Some <==> valid_utf8(bytes@),
        res matches Some(s) ==> encode_utf8(s@) == bytes@,
{
    String::from_utf8(bytes).ok()
}

/// Validates the HTTP status and the body's length and encoding once the
/// bytes of a response have been received.
///
/// The size limit is checked first, then the status, then the encoding.
pub fn validate_architecture_response(status: u16, bytes: &[u8]) -> (res: Result<String, FetchError>)
    ensures
        match (res, validated_response(status, bytes@)) {
            (Ok(s), Ok(t)) => s@ == t,
            (Err(e), Err(f)) => e == f,
            _ => false,
        },
{
    if bytes.len() > MAX_ARCHITECTURE_BYTES {
        return Err(FetchError::TooLarge);
    }
    if !(200 <= status && status < 300) {
        return Err(FetchError::UpstreamStatus);
    }
    let owned = vstd::slice::slice_to_vec(bytes);
    match string_from_utf8(owned) {
        Some(s) => {
            proof {
                encode_utf8_decode_utf8(s@);
            }
            Ok(s)
        },
        None => Err(FetchError::NotUtf8),
    }
}

} // verus!
