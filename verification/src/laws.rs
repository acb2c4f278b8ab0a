use vstd::prelude::*;
use crate::crypto::{ed25519_valid, key_spec, signed_message};
use crate::dispatch::{debug_wrap, dispatch_spec, greeting};
use crate::errors::PipelineError;
use crate::hexcode::hex_bytes;
use crate::interaction::{InteractionView, KindView, parsed_kind};
use crate::pipeline::{content_type_ok, handle_ok, header_error, process_ok};
use crate::response::{message_view, ResponseView};

verus! {

/// Law: a request whose `Content-Type` is absent or not the JSON media
/// type is refused as `BadContentType`, whatever the key, the signature
/// headers and the body hold — no later stage can influence the outcome.
pub proof fn lemma_bad_content_type(
    r: Result<ResponseView, PipelineError>,
    key: Seq<u8>,
    key_hex: Seq<char>,
    ct: Option<Seq<char>>,
    ts: Option<Seq<char>>,
    sig: Option<Seq<char>>,
    body: Seq<u8>,
)
    requires
        !content_type_ok(ct),
        process_ok(r, key, ct, ts, sig, body) || handle_ok(r, key_hex, ct, ts, sig, body),
    ensures
        r == Result::<ResponseView, PipelineError>::Err(PipelineError::BadContentType),
{
}

/// Law: once the headers are well-formed, the signature over
/// `timestamp || body` decides everything. A valid signature hands exactly
/// the signed body — unmodified — to the decoder and then the dispatcher;
/// an invalid one is refused as `Unauthorized` before any decoding.
pub proof fn lemma_verification_gate(
    r: Result<ResponseView, PipelineError>,
    key: Seq<u8>,
    ct: Option<Seq<char>>,
    ts: Option<Seq<char>>,
    sig: Option<Seq<char>>,
    body: Seq<u8>,
)
    requires
        header_error(ct, ts, sig) is None,
        process_ok(r, key, ct, ts, sig, body),
    ensures
        !ed25519_valid(key, signed_message(ts->0, body), hex_bytes(sig->0)) ==> r == Result::<
            ResponseView,
            PipelineError,
        >::Err(PipelineError::Unauthorized),
        ed25519_valid(key, signed_message(ts->0, body), hex_bytes(sig->0)) && parsed_kind(body)
            is None ==> r == Result::<ResponseView, PipelineError>::Err(
            PipelineError::MalformedPayload,
        ),
        ed25519_valid(key, signed_message(ts->0, body), hex_bytes(sig->0)) ==> (parsed_kind(body)
            matches Some(k) ==> exists|iv: InteractionView| iv.kind == k && r == dispatch_spec(
            iv,
        )),
{
}

/// Law: an authenticated `Ping` always yields exactly `Pong`; the command
/// registry plays no part in the outcome.
pub proof fn lemma_ping_pong(
    r: Result<ResponseView, PipelineError>,
    key: Seq<u8>,
    ct: Option<Seq<char>>,
    ts: Option<Seq<char>>,
    sig: Option<Seq<char>>,
    body: Seq<u8>,
)
    requires
        header_error(ct, ts, sig) is None,
        ed25519_valid(key, signed_message(ts->0, body), hex_bytes(sig->0)),
        parsed_kind(body) == Some(KindView::Ping),
        process_ok(r, key, ct, ts, sig, body),
    ensures
        r == Result::<ResponseView, PipelineError>::Ok(ResponseView::Pong),
{
    let iv = choose|iv: InteractionView| iv.kind == KindView::Ping && r == dispatch_spec(iv);
    assert(dispatch_spec(iv) == Result::<ResponseView, PipelineError>::Ok(ResponseView::Pong));
}

/// Law: a command invocation named `hello` always answers the fixed
/// greeting as a channel message, whatever else the payload holds.
pub proof fn lemma_hello_command(i: InteractionView)
    requires
        i.kind matches KindView::Command { name } && name == "hello"@,
    ensures
        dispatch_spec(i) == Result::<ResponseView, PipelineError>::Ok(message_view(greeting())),
{
}

/// Law: a command invocation whose name is not registered falls back to
/// the debug handler's echo — the request succeeds, it is not refused.
pub proof fn lemma_unknown_command_falls_back(i: InteractionView)
    requires
        i.kind matches KindView::Command { name } && name != "hello"@,
    ensures
        dispatch_spec(i) == Result::<ResponseView, PipelineError>::Ok(
            message_view(debug_wrap(i.repr)),
        ),
{
}

/// Law: an authenticated interaction of any kind outside ping and command
/// invocation is refused as `UnsupportedInteraction`; no handler is
/// consulted.
pub proof fn lemma_unsupported_kind(
    r: Result<ResponseView, PipelineError>,
    key: Seq<u8>,
    ct: Option<Seq<char>>,
    ts: Option<Seq<char>>,
    sig: Option<Seq<char>>,
    body: Seq<u8>,
)
    requires
        header_error(ct, ts, sig) is None,
        ed25519_valid(key, signed_message(ts->0, body), hex_bytes(sig->0)),
        parsed_kind(body) == Some(KindView::Other),
        process_ok(r, key, ct, ts, sig, body),
    ensures
        r == Result::<ResponseView, PipelineError>::Err(PipelineError::UnsupportedInteraction),
{
    let iv = choose|iv: InteractionView| iv.kind == KindView::Other && r == dispatch_spec(iv);
    assert(dispatch_spec(iv) == Result::<ResponseView, PipelineError>::Err(
        PipelineError::UnsupportedInteraction,
    ));
}

/// Law: the two entry points agree. When the configured hex decodes to a
/// usable key, reading it per request admits exactly the outcomes of the
/// pre-decoded key; when it does not, a request with well-formed headers
/// surfaces the configuration failure instead of silently passing or
/// failing verification.
pub proof fn lemma_key_paths_agree(
    r: Result<ResponseView, PipelineError>,
    key_hex: Seq<char>,
    ct: Option<Seq<char>>,
    ts: Option<Seq<char>>,
    sig: Option<Seq<char>>,
    body: Seq<u8>,
)
    ensures
        key_spec(key_hex) matches Some(k) ==> (handle_ok(r, key_hex, ct, ts, sig, body)
            <==> process_ok(r, k, ct, ts, sig, body)),
        header_error(ct, ts, sig) is None && key_spec(key_hex) is None ==> (handle_ok(
            r,
            key_hex,
            ct,
            ts,
            sig,
            body,
        ) <==> r == Result::<ResponseView, PipelineError>::Err(PipelineError::InvalidKey)),
{
}

/// Law: the pipeline keeps no state between requests, so re-sending an
/// identical signed request yields an identically-shaped response: the
/// same error, or the same success — equal outright except that the two
/// fallback echoes may each wrap their own rendering of the payload.
pub proof fn lemma_idempotent(
    r1: Result<ResponseView, PipelineError>,
    r2: Result<ResponseView, PipelineError>,
    key: Seq<u8>,
    ct: Option<Seq<char>>,
    ts: Option<Seq<char>>,
    sig: Option<Seq<char>>,
    body: Seq<u8>,
)
    requires
        process_ok(r1, key, ct, ts, sig, body),
        process_ok(r2, key, ct, ts, sig, body),
    ensures
        r1 is Ok <==> r2 is Ok,
        r1 matches Err(e) ==> r2 == r1,
        r1 is Ok && r2 is Ok ==> r1->Ok_0 == r2->Ok_0 || ((exists|c: Seq<char>|
            r1->Ok_0 == message_view(debug_wrap(c))) && (exists|c: Seq<char>|
            r2->Ok_0 == message_view(debug_wrap(c)))),
{
    if header_error(ct, ts, sig) is None && ed25519_valid(
        key,
        signed_message(ts->0, body),
        hex_bytes(sig->0),
    ) && parsed_kind(body) is Some {
        let k = parsed_kind(body)->0;
        let iv1 = choose|iv: InteractionView| iv.kind == k && r1 == dispatch_spec(iv);
        let iv2 = choose|iv: InteractionView| iv.kind == k && r2 == dispatch_spec(iv);
        match k {
            KindView::Ping => {
                assert(r1 == Result::<ResponseView, PipelineError>::Ok(ResponseView::Pong));
                assert(r2 == Result::<ResponseView, PipelineError>::Ok(ResponseView::Pong));
            },
            KindView::Command { name } => {
                if name == "hello"@ {
                    assert(r1 == Result::<ResponseView, PipelineError>::Ok(
                        message_view(greeting()),
                    ));
                    assert(r2 == Result::<ResponseView, PipelineError>::Ok(
                        message_view(greeting()),
                    ));
                } else {
                    assert(r1 == Result::<ResponseView, PipelineError>::Ok(
                        message_view(debug_wrap(iv1.repr)),
                    ));
                    assert(r2 == Result::<ResponseView, PipelineError>::Ok(
                        message_view(debug_wrap(iv2.repr)),
                    ));
                    assert(exists|c: Seq<char>| r1->Ok_0 == message_view(debug_wrap(c)));
                    assert(exists|c: Seq<char>| r2->Ok_0 == message_view(debug_wrap(c)));
                }
            },
            KindView::Other => {
                assert(r1 == Result::<ResponseView, PipelineError>::Err(
                    PipelineError::UnsupportedInteraction,
                ));
            },
        }
    }
}

} // verus!
