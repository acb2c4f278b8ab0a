use vstd::prelude::*;
use crate::crypto::{ed25519_valid, key_spec, signed_message, VerifierKey};
use crate::dispatch::{dispatch, dispatch_spec, outcome_view};
use crate::errors::PipelineError;
use crate::hexcode::{hex_bytes, hex_decode, hex_ok};
use crate::interaction::{decode_interaction, parsed_kind, InteractionView};
use crate::response::{InteractionResponse, ResponseView};

verus! {

/// The one `Content-Type` value a request may carry.
pub open spec fn content_type_ok(ct: Option<Seq<char>>) -> bool {
    ct == Some("application/json"@)
}

/// Expected byte length of a detached signature.
pub const SIGNATURE_LENGTH: usize = 64;

/// Header validation, in the order the pipeline applies it: wrong or absent
/// content type first, then a missing signature header, then a signature
/// that is not hex of the expected length. `None` means the headers are
/// well-formed.
pub open spec fn header_error(
    ct: Option<Seq<char>>,
    ts: Option<Seq<char>>,
    sig: Option<Seq<char>>,
) -> Option<PipelineError> {
    if !content_type_ok(ct) {
        Some(PipelineError::BadContentType)
    } else if ts is None || sig is None {
        Some(PipelineError::MissingHeader)
    } else if !(hex_ok(sig->0) && hex_bytes(sig->0).len() == SIGNATURE_LENGTH) {
        Some(PipelineError::BadSignatureEncoding)
    } else {
        None
    }
}

/// What may become of a request whose headers are well-formed, given the
/// key bytes. An invalid signature over `timestamp || body` is refused
/// before any decoding, and only the authenticated body — byte-identical
/// to what was signed — reaches the decoder and then the dispatcher. The
/// decoded kind and command name are functions of the body; the decoder's
/// rendering (which only the fallback handler echoes) is not, so the
/// outcome is pinned exactly up to that rendering.
pub open spec fn authed_ok(
    r: Result<ResponseView, PipelineError>,
    key: Seq<u8>,
    ts: Seq<char>,
    sig: Seq<u8>,
    body: Seq<u8>,
) -> bool {
    if !ed25519_valid(key, signed_message(ts, body), sig) {
        r == Result::<ResponseView, PipelineError>::Err(PipelineError::Unauthorized)
    } else {
        match parsed_kind(body) {
            Some(k) => exists|iv: InteractionView| iv.kind == k && r == dispatch_spec(iv),
            None => r == Result::<ResponseView, PipelineError>::Err(
                PipelineError::MalformedPayload,
            ),
        }
    }
}

/// The whole pipeline for an already-decoded key.
pub open spec fn process_ok(
    r: Result<ResponseView, PipelineError>,
    key: Seq<u8>,
    ct: Option<Seq<char>>,
    ts: Option<Seq<char>>,
    sig: Option<Seq<char>>,
    body: Seq<u8>,
) -> bool {
    match header_error(ct, ts, sig) {
        Some(e) => r == Result::<ResponseView, PipelineError>::Err(e),
        None => authed_ok(r, key, ts->0, hex_bytes(sig->0), body),
    }
}

/// The whole pipeline when the key is still a configured hex string, read
/// per request: header validation comes first, then the key must decode —
/// a failure there is the configuration error, surfaced, never a silent
/// pass — and only then is the signature checked.
pub open spec fn handle_ok(
    r: Result<ResponseView, PipelineError>,
    key_hex: Seq<char>,
    ct: Option<Seq<char>>,
    ts: Option<Seq<char>>,
    sig: Option<Seq<char>>,
    body: Seq<u8>,
) -> bool {
    match header_error(ct, ts, sig) {
        Some(e) => r == Result::<ResponseView, PipelineError>::Err(e),
        None => match key_spec(key_hex) {
            Some(k) => authed_ok(r, k, ts->0, hex_bytes(sig->0), body),
            None => r == Result::<ResponseView, PipelineError>::Err(PipelineError::InvalidKey),
        },
    }
}

/// Image of an optional header.
pub open spec fn opt_view(o: Option<String>) -> Option<Seq<char>> {
    match o {
        Some(s) => Some(s@),
        None => None,
    }
}

/// Validate the content type and signature headers; on success hand back
/// the timestamp header and the decoded signature bytes.
fn check_headers<'a>(
    content_type: &Option<String>,
    timestamp: &'a Option<String>,
    signature: &Option<String>,
) -> (r: Result<(&'a String, Vec<u8>), PipelineError>)
    ensures
        r is Ok <==> header_error(
            opt_view(*content_type),
            opt_view(*timestamp),
            opt_view(*signature),
        ) is None,
        r matches Err(e) ==> header_error(
            opt_view(*content_type),
            opt_view(*timestamp),
            opt_view(*signature),
        ) == Some(e),
        r matches Ok((t, sig_bytes)) ==> opt_view(*timestamp) == Some(t@) && sig_bytes@
            == hex_bytes(opt_view(*signature)->0) && sig_bytes@.len() == SIGNATURE_LENGTH,
{
    match content_type {
        Some(ct) => {
            if !(*ct == "application/json".to_owned()) {
                return Err(PipelineError::BadContentType);
            }
        },
        None => return Err(PipelineError::BadContentType),
    }
    let t = match timestamp {
        Some(t) => t,
        None => return Err(PipelineError::MissingHeader),
    };
    let s = match signature {
        Some(s) => s,
        None => return Err(PipelineError::MissingHeader),
    };
    let sig_bytes = match hex_decode(s.as_str()) {
        Some(v) => v,
        None => return Err(PipelineError::BadSignatureEncoding),
    };
    if sig_bytes.len() != SIGNATURE_LENGTH {
        return Err(PipelineError::BadSignatureEncoding);
    }
    Ok((t, sig_bytes))
}

/// Decode the authenticated body and route the result.
fn decode_and_dispatch(body: &Vec<u8>) -> (r: Result<InteractionResponse, PipelineError>)
    ensures
        parsed_kind(body@) is None ==> outcome_view(r) == Result::<
            ResponseView,
            PipelineError,
        >::Err(PipelineError::MalformedPayload),
        parsed_kind(body@) matches Some(k) ==> exists|iv: InteractionView|
            iv.kind == k && outcome_view(r) == dispatch_spec(iv),
{
    let interaction = match decode_interaction(body) {
        Some(i) => i,
        None => return Err(PipelineError::MalformedPayload),
    };
    let r = dispatch(&interaction);
    proof {
        assert(exists|iv: InteractionView|
            iv.kind == interaction@.kind && outcome_view(r) == dispatch_spec(iv));
    }
    r
}

/// Authenticate and dispatch one request against an already-decoded key.
///
/// Verification is strictly ordered before decoding: a body that fails the
/// signature check never reaches the decoder or a handler.
pub fn process_request(
    key: &VerifierKey,
    content_type: &Option<String>,
    timestamp: &Option<String>,
    signature: &Option<String>,
    body: &Vec<u8>,
) -> (r: Result<InteractionResponse, PipelineError>)
    ensures
        process_ok(
            outcome_view(r),
            key@,
            opt_view(*content_type),
            opt_view(*timestamp),
            opt_view(*signature),
            body@,
        ),
{
    let (t, sig_bytes) = match check_headers(content_type, timestamp, signature) {
        Ok(ok) => ok,
        Err(e) => return Err(e),
    };
    if !key.authenticate(t.as_str(), &sig_bytes, body) {
        return Err(PipelineError::Unauthorized);
    }
    decode_and_dispatch(body)
}

/// Authenticate and dispatch one request, reading the configured key from
/// its hex form anew for this request.
pub fn interaction_handler(
    key_hex: &str,
    content_type: &Option<String>,
    timestamp: &Option<String>,
    signature: &Option<String>,
    body: &Vec<u8>,
) -> (r: Result<InteractionResponse, PipelineError>)
    ensures
        handle_ok(
            outcome_view(r),
            key_hex@,
            opt_view(*content_type),
            opt_view(*timestamp),
            opt_view(*signature),
            body@,
        ),
{
    let (t, sig_bytes) = match check_headers(content_type, timestamp, signature) {
        Ok(ok) => ok,
        Err(e) => return Err(e),
    };
    let key = match VerifierKey::from_hex(key_hex) {
        Ok(k) => k,
        Err(e) => return Err(e),
    };
    if !key.authenticate(t.as_str(), &sig_bytes, body) {
        return Err(PipelineError::Unauthorized);
    }
    decode_and_dispatch(body)
}

} // verus!
