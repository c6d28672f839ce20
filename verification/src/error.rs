//! The unified error type for the adapter layer.
//!
//! Every failure origin — protocol decisions made by the engine, outgoing
//! header construction, request extraction, and asynchronous dispatch — is
//! absorbed into [`WebError`] without losing the distinguishing kind.

use vstd::prelude::*;

verus! {

/// A protocol-level error raised by the authorization engine.
///
/// The adapter passes these through unchanged rather than reinterpreting
/// them; only the HTTP status mapping is decided here.
#[derive(Clone, Copy, Debug, PartialEq, Eq, Structural)]
pub enum ProtocolError {
    /// The request looked suspicious and is dropped without a helpful answer.
    DenySilently,
    /// A server-side component failed while handling the flow.
    PrimitiveError,
    /// The incoming request was malformed.
    BadRequest,
}

/// The error type for the oauth adapter: a closed union over every failure
/// origin of this layer.
#[derive(Clone, Copy, Debug, PartialEq, Eq, Structural)]
pub enum WebError {
    /// A protocol error raised by the engine.
    Endpoint(ProtocolError),
    /// An outgoing header value could not be constructed.
    Header,
    /// The request encoding could not be handled.
    Encoding,
    /// The request body could not be parsed as a form.
    Form,
    /// The request query was absent or could not be parsed.
    Query,
    /// The request was missing a parseable body.
    Body,
    /// More than one Authorization header was present.
    Authorization,
    /// Processing part of the request was canceled.
    Canceled,
    /// An actor's mailbox was full.
    Mailbox,
}

impl ProtocolError {
    /// The human-readable description of this protocol error.
    pub open spec fn description_spec(&self) -> Seq<char> {
        match self {
            ProtocolError::DenySilently => "Suspicious request may be an attack"@,
            ProtocolError::PrimitiveError => "Server component failed during OAuth flow"@,
            ProtocolError::BadRequest => "Request was invalid"@,
        }
    }

    /// A human-readable description of the error.
    pub fn description(&self) -> (r: &'static str)
        ensures
            r@ == self.description_spec(),
    {
        match self {
            ProtocolError::DenySilently => "Suspicious request may be an attack",
            ProtocolError::PrimitiveError => "Server component failed during OAuth flow",
            ProtocolError::BadRequest => "Request was invalid",
        }
    }
}

impl WebError {
    /// The human-readable description of this error.
    pub open spec fn description_spec(&self) -> Seq<char> {
        match self {
            WebError::Endpoint(e) => e.description_spec(),
            WebError::Header => "Couldn't set header"@,
            WebError::Encoding => "Error decoding request"@,
            WebError::Form => "Request is not a form"@,
            WebError::Query => "No query present"@,
            WebError::Body => "No body present"@,
            WebError::Authorization => "Request has invalid Authorization headers"@,
            WebError::Canceled => "Operation canceled"@,
            WebError::Mailbox => "An actor's mailbox was full"@,
        }
    }

    /// A human-readable description of the error.
    pub fn description(&self) -> (r: &'static str)
        ensures
            r@ == self.description_spec(),
    {
        match self {
            WebError::Endpoint(e) => e.description(),
            WebError::Header => "Couldn't set header",
            WebError::Encoding => "Error decoding request",
            WebError::Form => "Request is not a form",
            WebError::Query => "No query present",
            WebError::Body => "No body present",
            WebError::Authorization => "Request has invalid Authorization headers",
            WebError::Canceled => "Operation canceled",
            WebError::Mailbox => "An actor's mailbox was full",
        }
    }

    /// The HTTP status this layer reports for an unhandled error.
    ///
    /// Every kind maps to 500: this layer cannot know which internal
    /// failures are safe to disclose, so the default fails closed. Callers
    /// that know better supply their own per-kind policy instead.
    pub fn status_code(&self) -> (s: u16)
        ensures
            s == 500,
    {
        500
    }
}

impl From<ProtocolError> for WebError {
    /// Absorbs an engine error, keeping its kind.
    fn from(e: ProtocolError) -> (r: Self) {
        WebError::Endpoint(e)
    }
}

impl vstd::std_specs::convert::FromSpecImpl<ProtocolError> for WebError {
    open spec fn obeys_from_spec() -> bool {
        true
    }

    open spec fn from_spec(e: ProtocolError) -> Self {
        WebError::Endpoint(e)
    }
}

/// An engine error together with its outward HTTP mapping.
///
/// Unlike [`WebError`], whose policy fails closed, this wrapper discloses
/// client-caused protocol failures as client errors.
#[derive(Clone, Copy, Debug, PartialEq, Eq, Structural)]
pub struct OAuthFailure(pub ProtocolError);

impl OAuthFailure {
    /// The HTTP status that answers this failure.
    pub open spec fn status_spec(&self) -> u16 {
        match self.0 {
            ProtocolError::DenySilently => 400u16,
            ProtocolError::PrimitiveError => 500u16,
            ProtocolError::BadRequest => 400u16,
        }
    }

    /// The HTTP status that answers this failure: client errors are
    /// reported as 400, server-side failures as 500.
    pub fn status_code(&self) -> (s: u16)
        ensures
            s == self.status_spec(),
    {
        match self.0 {
            ProtocolError::DenySilently => 400,
            ProtocolError::PrimitiveError => 500,
            ProtocolError::BadRequest => 400,
        }
    }

    /// A human-readable description of the failure.
    pub fn description(&self) -> (r: &'static str)
        ensures
            r@ == self.0.description_spec(),
    {
        self.0.description()
    }
}

} // verus!
