//! Failures of building the mail message.
use vstd::prelude::*;
use crate::cause::Cause;
use crate::code::ErrorCode;
use crate::record::{response_of, ErrorResponse, ResponseView};
use crate::text::texts;

verus! {

/// `lettre::error::Error`, what the message builder of lettre fails with.
/// What a value of it holds is known through [`classified`].
#[verifier::external_type_specification]
#[verifier::external_body]
pub struct ExMessageFailure(lettre::error::Error);

/// A failure of building the mail message, as the content of the request
/// caused it.
#[derive(Debug, PartialEq, Eq)]
pub enum MessageError {
    /// The message has no sender address.
    MissingFrom,
    /// The message has no recipient address.
    MissingTo,
    /// The message has more than one sender address.
    TooManyFrom,
    /// An email address has no `@`.
    EmailMissingAt,
    /// An email address has no local part.
    EmailMissingLocalPart,
    /// An email address has no domain.
    EmailMissingDomain,
    /// The file name of an attachment could not be parsed.
    CannotParseFilename,
    /// Reading a part of the message failed.
    Io(Cause),
    /// A part of the message that must be ASCII is not.
    NonAsciiChars,
}

/// The failure of this library that stands for a failure of lettre's
/// message builder: the variant of the same name, with the I/O error that
/// `Io` wraps kept as the texts that its `Display` and `Debug` give.
pub uninterp spec fn classified(failure: lettre::error::Error) -> MessageError;

/// Tells the variants of `lettre::error::Error` apart and gives each as the
/// variant of the same name. The I/O error that `Io` wraps is kept as its
/// `Display` and `Debug` texts. The result depends on the failure alone;
/// which variant it is, is not claimed here.
#[verifier::external_body]
pub(crate) fn classify(failure: lettre::error::Error) -> (r: MessageError)
    ensures
        r == classified(failure),
{
    match failure {
        lettre::error::Error::MissingFrom => MessageError::MissingFrom,
        lettre::error::Error::MissingTo => MessageError::MissingTo,
        lettre::error::Error::TooManyFrom => MessageError::TooManyFrom,
        lettre::error::Error::EmailMissingAt => MessageError::EmailMissingAt,
        lettre::error::Error::EmailMissingLocalPart => MessageError::EmailMissingLocalPart,
        lettre::error::Error::EmailMissingDomain => MessageError::EmailMissingDomain,
        lettre::error::Error::CannotParseFilename => MessageError::CannotParseFilename,
        lettre::error::Error::Io(e) => MessageError::Io(Cause { message: format!("{e}"), debug: format!("{e:?}") }),
        lettre::error::Error::NonAsciiChars => MessageError::NonAsciiChars,
    }
}

impl MessageError {
    /// The published code of the failure.
    pub open spec fn code(&self) -> ErrorCode {
        match self {
            MessageError::MissingFrom => ErrorCode::MissingFrom,
            MessageError::MissingTo => ErrorCode::MissingTo,
            MessageError::TooManyFrom => ErrorCode::TooManyFrom,
            MessageError::EmailMissingAt => ErrorCode::EmailMissingAt,
            MessageError::EmailMissingLocalPart => ErrorCode::EmailMissingLocalPart,
            MessageError::EmailMissingDomain => ErrorCode::EmailMissingDomain,
            MessageError::CannotParseFilename => ErrorCode::CannotParseFilename,
            MessageError::Io(_) => ErrorCode::MessageIo,
            MessageError::NonAsciiChars => ErrorCode::NonAsciiChars,
        }
    }

    /// The diagnostic strings of the failure: the internal rendering of the
    /// I/O error where one is wrapped, none otherwise.
    pub open spec fn details(&self) -> Seq<Seq<char>> {
        match self {
            MessageError::Io(cause) => seq![cause.debug@],
            _ => Seq::empty(),
        }
    }

    /// Whether `self` and `other` are the same variant, whatever they wrap.
    pub open spec fn same_variant(&self, other: &MessageError) -> bool {
        match (self, other) {
            (MessageError::MissingFrom, MessageError::MissingFrom) => true,
            (MessageError::MissingTo, MessageError::MissingTo) => true,
            (MessageError::TooManyFrom, MessageError::TooManyFrom) => true,
            (MessageError::EmailMissingAt, MessageError::EmailMissingAt) => true,
            (MessageError::EmailMissingLocalPart, MessageError::EmailMissingLocalPart) => true,
            (MessageError::EmailMissingDomain, MessageError::EmailMissingDomain) => true,
            (MessageError::CannotParseFilename, MessageError::CannotParseFilename) => true,
            (MessageError::Io(_), MessageError::Io(_)) => true,
            (MessageError::NonAsciiChars, MessageError::NonAsciiChars) => true,
            _ => false,
        }
    }

    /// The record of the failure.
    pub open spec fn response(&self) -> ResponseView {
        response_of(self.code(), self.details())
    }
}

impl From<MessageError> for ErrorResponse {
    /// Maps a failure of building the message: always a bad request.
    fn from(value: MessageError) -> (r: ErrorResponse)
        ensures
            r@ == value.response(),
            r@.status == 400,
    {
        let (code, details): (ErrorCode, Vec<String>) = match value {
            MessageError::MissingFrom => (ErrorCode::MissingFrom, Vec::new()),
            MessageError::MissingTo => (ErrorCode::MissingTo, Vec::new()),
            MessageError::TooManyFrom => (ErrorCode::TooManyFrom, Vec::new()),
            MessageError::EmailMissingAt => (ErrorCode::EmailMissingAt, Vec::new()),
            MessageError::EmailMissingLocalPart => (ErrorCode::EmailMissingLocalPart, Vec::new()),
            MessageError::EmailMissingDomain => (ErrorCode::EmailMissingDomain, Vec::new()),
            MessageError::CannotParseFilename => (ErrorCode::CannotParseFilename, Vec::new()),
            MessageError::Io(cause) => (ErrorCode::MessageIo, vec![cause.debug]),
            MessageError::NonAsciiChars => (ErrorCode::NonAsciiChars, Vec::new()),
        };
        assert(texts(details@) =~= value.details());
        ErrorResponse::new(code, details)
    }
}

impl vstd::std_specs::convert::FromSpecImpl<MessageError> for ErrorResponse {
    open spec fn obeys_from_spec() -> bool {
        false
    }

    open spec fn from_spec(value: MessageError) -> ErrorResponse {
        arbitrary()
    }
}

impl From<lettre::error::Error> for ErrorResponse {
    /// Maps a failure that the message builder reported: the record is that
    /// of the [`MessageError`] which stands for the failure, so a bad
    /// request with at most one detail.
    fn from(value: lettre::error::Error) -> (r: ErrorResponse)
        ensures
            r@ == classified(value).response(),
            r@.status == 400,
            r@.details.len() <= 1,
    {
        ErrorResponse::from(classify(value))
    }
}

impl vstd::std_specs::convert::FromSpecImpl<lettre::error::Error> for ErrorResponse {
    open spec fn obeys_from_spec() -> bool {
        false
    }

    open spec fn from_spec(value: lettre::error::Error) -> ErrorResponse {
        arbitrary()
    }
}

/// Two failures of building the message that are the same variant have the
/// same status, code and title, whatever they wrap.
pub proof fn lemma_message_same_variant(a: MessageError, b: MessageError)
    requires
        a.same_variant(&b),
    ensures
        a.response().status == b.response().status,
        a.response().code == b.response().code,
        a.response().title == b.response().title,
{
}

} // verus!
