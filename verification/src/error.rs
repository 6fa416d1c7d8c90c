//! The failures that the transport reports.

use vstd::prelude::*;

verus! {

/// `hyper::Error`, carried through unopened.
#[verifier::external_type_specification]
#[verifier::external_body]
pub struct ExHyperError(hyper::Error);

/// `hyper::error::UriError`, carried through unopened.
#[verifier::external_type_specification]
#[verifier::external_body]
pub struct ExUriError(hyper::error::UriError);

/// Message of the reactor failure during construction.
pub const UNABLE_TO_CREATE: &'static str = "Unable to create";

/// Message of a submission made when nothing drains the request queue.
pub const NOT_LISTENING: &'static str = "Not listening for requests";

/// Message of a request whose response slot was dropped unwritten.
pub const DIED_WITHOUT_RESPONSE: &'static str = "Died without returning response";

/// What went wrong.
#[derive(Debug)]
pub enum ErrorKind {
    /// A failure that only has a description.
    Msg(String),
    /// The network client could not be constructed.
    ClientBuilderError,
    /// The server answered with a status code other than 200.
    HttpError(u16),
    /// The reactor or the dispatch side failed; the text says how.
    TokioCoreError(&'static str),
    /// The HTTP exchange itself failed.
    Hyper(hyper::Error),
    /// The destination address is not a URI.
    Uri(hyper::error::UriError),
}

/// An error of the transport.
#[derive(Debug)]
pub struct TransportError {
    pub kind: ErrorKind,
}

impl TransportError {
    /// Wraps a kind.
    pub fn new(kind: ErrorKind) -> (e: TransportError)
        ensures
            e.kind == kind,
    {
        TransportError { kind }
    }

    /// The kind of this error.
    pub fn kind(&self) -> (k: &ErrorKind)
        ensures
            *k == self.kind,
    {
        &self.kind
    }

    /// The error of a construction whose client strategy failed.
    pub open spec fn spec_client_builder() -> TransportError {
        TransportError { kind: ErrorKind::ClientBuilderError }
    }

    /// The error of a construction whose client strategy failed.
    #[verifier::when_used_as_spec(spec_client_builder)]
    pub fn client_builder() -> (e: TransportError)
        ensures
            e == Self::spec_client_builder(),
    {
        TransportError { kind: ErrorKind::ClientBuilderError }
    }

    /// The error of a construction that could not create its reactor.
    pub open spec fn spec_unable_to_create() -> TransportError {
        TransportError { kind: ErrorKind::TokioCoreError(UNABLE_TO_CREATE) }
    }

    /// The error of a construction that could not create its reactor.
    #[verifier::when_used_as_spec(spec_unable_to_create)]
    pub fn unable_to_create() -> (e: TransportError)
        ensures
            e == Self::spec_unable_to_create(),
    {
        TransportError { kind: ErrorKind::TokioCoreError(UNABLE_TO_CREATE) }
    }

    /// The error of a submission that found the request queue closed.
    pub open spec fn spec_not_listening() -> TransportError {
        TransportError { kind: ErrorKind::TokioCoreError(NOT_LISTENING) }
    }

    /// The error of a submission that found the request queue closed.
    #[verifier::when_used_as_spec(spec_not_listening)]
    pub fn not_listening() -> (e: TransportError)
        ensures
            e == Self::spec_not_listening(),
    {
        TransportError { kind: ErrorKind::TokioCoreError(NOT_LISTENING) }
    }

    /// The error of a call whose response slot was dropped unwritten.
    pub open spec fn spec_died_without_response() -> TransportError {
        TransportError { kind: ErrorKind::TokioCoreError(DIED_WITHOUT_RESPONSE) }
    }

    /// The error of a call whose response slot was dropped unwritten.
    #[verifier::when_used_as_spec(spec_died_without_response)]
    pub fn died_without_response() -> (e: TransportError)
        ensures
            e == Self::spec_died_without_response(),
    {
        TransportError { kind: ErrorKind::TokioCoreError(DIED_WITHOUT_RESPONSE) }
    }

    /// The error of an exchange that the server answered with `status`.
    pub open spec fn spec_http(status: u16) -> TransportError {
        TransportError { kind: ErrorKind::HttpError(status) }
    }

    /// The error of an exchange that the server answered with `status`.
    #[verifier::when_used_as_spec(spec_http)]
    pub fn http(status: u16) -> (e: TransportError)
        ensures
            e == Self::spec_http(status),
    {
        TransportError { kind: ErrorKind::HttpError(status) }
    }

    /// The error of an exchange that failed below HTTP, around its cause.
    pub open spec fn spec_network(cause: hyper::Error) -> TransportError {
        TransportError { kind: ErrorKind::Hyper(cause) }
    }

    /// The error of an exchange that failed below HTTP, around its cause.
    #[verifier::when_used_as_spec(spec_network)]
    pub fn network(cause: hyper::Error) -> (e: TransportError)
        ensures
            e == Self::spec_network(cause),
    {
        TransportError { kind: ErrorKind::Hyper(cause) }
    }
}

} // verus!
