use vstd::prelude::*;

verus! {

/// Every way the pipeline can refuse a request, together with the class of
/// HTTP status the surrounding transport should answer with.
///
/// The first six are expected, request-scoped failures (4xx). `InvalidKey`
/// and `HandlerFailure` are server-side defects (5xx): a configured public
/// key that does not decode, and a command handler that reported an error.
#[derive(Clone, Copy, Debug, PartialEq, Eq, Structural)]
pub enum PipelineError {
    /// `Content-Type` header missing or not the JSON media type.
    BadContentType,
    /// A required signature header is absent.
    MissingHeader,
    /// The signature header is not hex of the expected signature length.
    BadSignatureEncoding,
    /// The configured public key does not decode to a usable key.
    InvalidKey,
    /// The signature does not verify over `timestamp || body`.
    Unauthorized,
    /// The authenticated body is not a decodable interaction payload.
    MalformedPayload,
    /// The interaction kind is outside the supported set.
    UnsupportedInteraction,
    /// A handler-level failure: the registry was handed something other
    /// than a command invocation, or a handler reported an error of its own.
    HandlerFailure,
}

/// HTTP status class for each rejection.
pub open spec fn status_spec(e: PipelineError) -> u16 {
    match e {
        PipelineError::BadContentType => 400,
        PipelineError::MissingHeader => 400,
        PipelineError::BadSignatureEncoding => 400,
        PipelineError::InvalidKey => 500,
        PipelineError::Unauthorized => 401,
        PipelineError::MalformedPayload => 400,
        PipelineError::UnsupportedInteraction => 400,
        PipelineError::HandlerFailure => 500,
    }
}

/// Message the transport layer may put in the error response body.
pub open spec fn message_spec(e: PipelineError) -> Seq<char> {
    match e {
        PipelineError::BadContentType => "Bad Content Type"@,
        PipelineError::MissingHeader => "missing signature header"@,
        PipelineError::BadSignatureEncoding => "could not decode signature"@,
        PipelineError::InvalidKey => "could not decode public key"@,
        PipelineError::Unauthorized => "not authorized"@,
        PipelineError::MalformedPayload => "could not decode interaction"@,
        PipelineError::UnsupportedInteraction => "unsupported interaction type"@,
        PipelineError::HandlerFailure => "invalid interaction data"@,
    }
}

impl PipelineError {
    /// The HTTP status code this rejection maps to.
    pub fn status_code(&self) -> (r: u16)
        ensures
            r == status_spec(*self),
    {
        match self {
            PipelineError::BadContentType => 400,
            PipelineError::MissingHeader => 400,
            PipelineError::BadSignatureEncoding => 400,
            PipelineError::InvalidKey => 500,
            PipelineError::Unauthorized => 401,
            PipelineError::MalformedPayload => 400,
            PipelineError::UnsupportedInteraction => 400,
            PipelineError::HandlerFailure => 500,
        }
    }

    /// A short human-readable description, free of any request data.
    pub fn message(&self) -> (r: String)
        ensures
            r@ == message_spec(*self),
    {
        match self {
            PipelineError::BadContentType => "Bad Content Type".to_owned(),
            PipelineError::MissingHeader => "missing signature header".to_owned(),
            PipelineError::BadSignatureEncoding => "could not decode signature".to_owned(),
            PipelineError::InvalidKey => "could not decode public key".to_owned(),
            PipelineError::Unauthorized => "not authorized".to_owned(),
            PipelineError::MalformedPayload => "could not decode interaction".to_owned(),
            PipelineError::UnsupportedInteraction => "unsupported interaction type".to_owned(),
            PipelineError::HandlerFailure => "invalid interaction data".to_owned(),
        }
    }
}

} // verus!
