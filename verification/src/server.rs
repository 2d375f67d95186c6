//! The one failure type of a request handler.
use vstd::prelude::*;
use crate::code::{ErrorCode, Origin};
use crate::engine::EngineError;
use crate::message::{classified, classify, MessageError};
use crate::record::{body_of, response_of, ErrorBody, ErrorResponse, ResponseView};
use crate::transport::{describe, reported, TransportError};

verus! {

/// What can make a request fail: generating the email, building the
/// message, or sending it. A failure of a layer below becomes one of these
/// by plain wrapping.
#[derive(Debug, PartialEq, Eq)]
pub enum ServerError {
    /// The engine could not generate the email.
    Engine(EngineError),
    /// The message could not be built.
    Smtp(MessageError),
    /// The message could not be sent.
    SmtpTransport(TransportError),
}

impl ServerError {
    /// The published code of the failure: that of the layer that failed.
    pub open spec fn code(&self) -> ErrorCode {
        match self {
            ServerError::Engine(inner) => inner.code(),
            ServerError::Smtp(inner) => inner.code(),
            ServerError::SmtpTransport(inner) => inner.code(),
        }
    }

    /// Whether `self` and `other` are the same variant, down to the layer
    /// that failed, whatever they carry.
    pub open spec fn same_variant(&self, other: &ServerError) -> bool {
        match (self, other) {
            (ServerError::Engine(a), ServerError::Engine(b)) => a.same_variant(b),
            (ServerError::Smtp(a), ServerError::Smtp(b)) => a.same_variant(b),
            (ServerError::SmtpTransport(_), ServerError::SmtpTransport(_)) => true,
            _ => false,
        }
    }

    /// The record of the failure: that of the layer that failed, unchanged.
    pub open spec fn response(&self) -> ResponseView {
        match self {
            ServerError::Engine(inner) => inner.response(),
            ServerError::Smtp(inner) => inner.response(),
            ServerError::SmtpTransport(inner) => inner.response(),
        }
    }

    /// Turns the failure into what the HTTP response is made of: the status
    /// for the status line and the body, both those of the failure's record.
    pub fn into_parts(self) -> (r: (u16, ErrorBody))
        ensures
            r.0 == self.response().status,
            400 <= r.0 < 600,
            r.1@ == body_of(self.response()),
    {
        let response = ErrorResponse::from(self);
        let status = response.status();
        (status, response.into_body())
    }

    /// What the service writes to its own log, at error severity, before
    /// the failure is reduced to its public record: the full internal
    /// rendering of a failure of the transport, and nothing for a failure
    /// that the record describes in full.
    pub fn log_line(&self) -> (r: Option<String>)
        ensures
            r is Some <==> self is SmtpTransport,
            self matches ServerError::SmtpTransport(failure) ==> r matches Some(line) && line@
                == failure.log_text(),
    {
        match self {
            ServerError::SmtpTransport(failure) => Some(failure.log_line()),
            _ => None,
        }
    }
}

impl From<EngineError> for ServerError {
    /// Wraps a failure of the engine, as it is.
    fn from(value: EngineError) -> (r: ServerError)
        ensures
            r == ServerError::Engine(value),
    {
        ServerError::Engine(value)
    }
}

impl vstd::std_specs::convert::FromSpecImpl<EngineError> for ServerError {
    open spec fn obeys_from_spec() -> bool {
        true
    }

    open spec fn from_spec(value: EngineError) -> ServerError {
        ServerError::Engine(value)
    }
}

impl From<MessageError> for ServerError {
    /// Wraps a failure of building the message, as it is.
    fn from(value: MessageError) -> (r: ServerError)
        ensures
            r == ServerError::Smtp(value),
    {
        ServerError::Smtp(value)
    }
}

impl vstd::std_specs::convert::FromSpecImpl<MessageError> for ServerError {
    open spec fn obeys_from_spec() -> bool {
        true
    }

    open spec fn from_spec(value: MessageError) -> ServerError {
        ServerError::Smtp(value)
    }
}

impl From<TransportError> for ServerError {
    /// Wraps a failure of the transport, as it is.
    fn from(value: TransportError) -> (r: ServerError)
        ensures
            r == ServerError::SmtpTransport(value),
    {
        ServerError::SmtpTransport(value)
    }
}

impl vstd::std_specs::convert::FromSpecImpl<TransportError> for ServerError {
    open spec fn obeys_from_spec() -> bool {
        true
    }

    open spec fn from_spec(value: TransportError) -> ServerError {
        ServerError::SmtpTransport(value)
    }
}

impl From<lettre::error::Error> for ServerError {
    /// Wraps a failure that the message builder reported, as the
    /// [`MessageError`] that stands for it.
    fn from(value: lettre::error::Error) -> (r: ServerError)
        ensures
            r == ServerError::Smtp(classified(value)),
    {
        ServerError::Smtp(classify(value))
    }
}

impl vstd::std_specs::convert::FromSpecImpl<lettre::error::Error> for ServerError {
    open spec fn obeys_from_spec() -> bool {
        true
    }

    open spec fn from_spec(value: lettre::error::Error) -> ServerError {
        ServerError::Smtp(classified(value))
    }
}

impl From<lettre::transport::smtp::Error> for ServerError {
    /// Wraps a failure that the SMTP transport reported, as the
    /// [`TransportError`] that stands for it.
    fn from(value: lettre::transport::smtp::Error) -> (r: ServerError)
        ensures
            r == ServerError::SmtpTransport(reported(value)),
    {
        ServerError::SmtpTransport(TransportError { cause: describe(&value) })
    }
}

impl vstd::std_specs::convert::FromSpecImpl<lettre::transport::smtp::Error> for ServerError {
    open spec fn obeys_from_spec() -> bool {
        true
    }

    open spec fn from_spec(value: lettre::transport::smtp::Error) -> ServerError {
        ServerError::SmtpTransport(reported(value))
    }
}

impl From<ServerError> for ErrorResponse {
    /// Maps the failure of a request by handing it to the mapping
    /// of the layer that failed, which alone decides status and code.
    fn from(value: ServerError) -> (r: ErrorResponse)
        ensures
            r@ == value.response(),
    {
        match value {
            ServerError::Engine(inner) => ErrorResponse::from(inner),
            ServerError::Smtp(inner) => ErrorResponse::from(inner),
            ServerError::SmtpTransport(inner) => ErrorResponse::from(inner),
        }
    }
}

impl vstd::std_specs::convert::FromSpecImpl<ServerError> for ErrorResponse {
    open spec fn obeys_from_spec() -> bool {
        false
    }

    open spec fn from_spec(value: ServerError) -> ErrorResponse {
        arbitrary()
    }
}

/// Every failure has exactly one record, and it is the record of a
/// published code: status, code and title are those of the code of the
/// failure. The status is a client error where the caller's input is at
/// fault and a server error otherwise.
pub proof fn lemma_every_failure_has_its_record(failure: ServerError)
    ensures
        failure.response() == response_of(failure.code(), failure.response().details),
        failure.code().origin() == Origin::CallerInput ==> 400 <= failure.response().status < 500,
        failure.code().origin() != Origin::CallerInput ==> 500 <= failure.response().status < 600,
{
}

/// Two failures that are the same variant, down to the layer that failed,
/// have the same status, code and title, whatever they carry.
pub proof fn lemma_server_same_variant(a: ServerError, b: ServerError)
    requires
        a.same_variant(&b),
    ensures
        a.code() == b.code(),
        a.response().status == b.response().status,
        a.response().code == b.response().code,
        a.response().title == b.response().title,
{
}

} // verus!
