//! Failures of the SMTP transport.
use vstd::prelude::*;
use crate::cause::Cause;
use crate::code::ErrorCode;
use crate::record::{response_of, ErrorResponse, ResponseView};
use crate::text::texts;

verus! {

/// `lettre::transport::smtp::Error`, what the SMTP transport of lettre fails
/// with. What a value of it holds is known through [`described`].
#[verifier::external_type_specification]
#[verifier::external_body]
pub struct ExTransportFailure(lettre::transport::smtp::Error);

/// A failure of sending the message over SMTP. What the transport reported
/// is opaque to the caller: only its message is surfaced, while the internal
/// rendering is kept for the service's own log.
#[derive(Debug, PartialEq, Eq)]
pub struct TransportError {
    /// What the transport reported.
    pub cause: Cause,
}

/// The two texts of a failure of lettre's SMTP transport: what its
/// `Display` gives as the message and what its `Debug` gives as the internal
/// rendering.
pub uninterp spec fn described(failure: lettre::transport::smtp::Error) -> Cause;

/// Keeps a `lettre::transport::smtp::Error` as the two texts that its
/// `Display` and `Debug` give. The result depends on the failure alone; what
/// the texts are, is not claimed here.
#[verifier::external_body]
pub(crate) fn describe(failure: &lettre::transport::smtp::Error) -> (r: Cause)
    ensures
        r == described(*failure),
{
    Cause { message: format!("{failure}"), debug: format!("{failure:?}") }
}

/// The failure of this library that stands for a failure of lettre's SMTP
/// transport.
pub open spec fn reported(failure: lettre::transport::smtp::Error) -> TransportError {
    TransportError { cause: described(failure) }
}

impl TransportError {
    /// The published code of the failure.
    pub open spec fn code(&self) -> ErrorCode {
        ErrorCode::SmtpTransport
    }

    /// The line for the service's log: the full internal rendering of what
    /// the transport reported, which the public record leaves out.
    pub open spec fn log_text(&self) -> Seq<char> {
        "smtp transport error: "@ + self.cause.debug@
    }

    /// Writes the line for the service's log.
    pub fn log_line(&self) -> (r: String)
        ensures
            r@ == self.log_text(),
    {
        let mut r = String::from_str("smtp transport error: ");
        r.append(self.cause.debug.as_str());
        r
    }

    /// The record of the failure: a server error whose one detail is the
    /// message of what the transport reported.
    pub open spec fn response(&self) -> ResponseView {
        response_of(ErrorCode::SmtpTransport, seq![self.cause.message@])
    }
}

impl From<TransportError> for ErrorResponse {
    /// Maps a failure of the transport: an internal server error with
    /// the transport's message as the one detail.
    fn from(value: TransportError) -> (r: ErrorResponse)
        ensures
            r@ == value.response(),
            r@.status == 500,
    {
        let details = vec![value.cause.message];
        assert(texts(details@) =~= seq![value.cause.message@]);
        ErrorResponse::new(ErrorCode::SmtpTransport, details)
    }
}

impl vstd::std_specs::convert::FromSpecImpl<TransportError> for ErrorResponse {
    open spec fn obeys_from_spec() -> bool {
        false
    }

    open spec fn from_spec(value: TransportError) -> ErrorResponse {
        arbitrary()
    }
}

impl From<lettre::transport::smtp::Error> for ErrorResponse {
    /// Maps a failure that the SMTP transport reported: an internal server
    /// error with the transport's code and title, whose one detail is the
    /// message of the failure.
    fn from(value: lettre::transport::smtp::Error) -> (r: ErrorResponse)
        ensures
            r@ == reported(value).response(),
            r@ == response_of(ErrorCode::SmtpTransport, seq![described(value).message@]),
            r@.status == 500,
    {
        ErrorResponse::from(TransportError { cause: describe(&value) })
    }
}

impl vstd::std_specs::convert::FromSpecImpl<lettre::transport::smtp::Error> for ErrorResponse {
    open spec fn obeys_from_spec() -> bool {
        false
    }

    open spec fn from_spec(value: lettre::transport::smtp::Error) -> ErrorResponse {
        arbitrary()
    }
}

} // verus!
