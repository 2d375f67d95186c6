//! The published enumeration of error codes, with the HTTP status and the
//! title that belong to each.
use vstd::prelude::*;

verus! {

/// Who is to blame for a failure, which decides the class of its HTTP status.
#[derive(Clone, Copy, Debug, PartialEq, Eq, Structural)]
pub enum Origin {
    /// The content of the request is at fault: a client error.
    CallerInput,
    /// A service or resource that this one depends on failed: a server error.
    Downstream,
    /// An invariant of the engine was violated: a server error.
    Internal,
}

/// The closed set of failures that the service reports. Each has one stable
/// code text, one title and one HTTP status.
#[derive(Clone, Copy, Debug, PartialEq, Eq, Structural)]
pub enum ErrorCode {
    /// The file name of an attachment could not be parsed.
    CannotParseFilename,
    /// An email address has no `@`.
    EmailMissingAt,
    /// An email address has no domain.
    EmailMissingDomain,
    /// An email address has no local part.
    EmailMissingLocalPart,
    /// Reading a part of the message failed while it was built.
    MessageIo,
    /// The message has no sender address.
    MissingFrom,
    /// The message has no recipient address.
    MissingTo,
    /// A part of the message that must be ASCII is not.
    NonAsciiChars,
    /// The message has more than one sender address.
    TooManyFrom,
    /// The SMTP transport failed to deliver the message.
    SmtpTransport,
    /// The values given for a template could not be interpolated.
    Interpolation,
    /// Every candidate source of a template failed.
    Loading,
    /// The remote template file could not be fetched.
    TemplateLoadingFailed,
    /// The remote metadata file could not be fetched.
    MetadataLoadingFailed,
    /// The address of a remote metadata file could not be built.
    UrlBuildingFailed,
    /// A request to a remote source failed.
    ExternalRequestFailed,
    /// The local template file could not be opened.
    TemplateOpeningFailed,
    /// The local metadata file could not be opened.
    MetadataOpeningFailed,
    /// The local metadata file could not be decoded.
    MetadataInvalidFormat,
    /// The template ended before it was complete.
    TemplateFormat,
    /// The template is larger than the parser accepts.
    TemplateSizeExceeded,
    /// The template has no root component.
    TemplateMissingRoot,
    /// The template holds a token where none of its kind may stand.
    TemplateUnexpectedToken,
    /// A template included by another could not be loaded.
    TemplateIncludeLoading,
    /// An attribute of the template has an invalid value.
    TemplateInvalidAttribute,
    /// A part of the template is not in the expected format.
    TemplateInvalidFormat,
    /// An element of the template lacks a required attribute.
    TemplateMissingAttribute,
    /// The template is not well-formed XML.
    TemplateInvalidXml,
    /// An element of the template has an attribute it may not have.
    TemplateUnexpectedAttribute,
    /// The template holds an element where none of its kind may stand.
    TemplateUnexpectedElement,
    /// Rendering met a reference to a fragment that is not defined.
    RenderingUnknownFragment,
}

/// The status of a request whose content is at fault.
pub const BAD_REQUEST: u16 = 400;

/// The status of a failure inside the service.
pub const INTERNAL_SERVER_ERROR: u16 = 500;

/// The status of a failure to fetch what the service depends on.
pub const BAD_GATEWAY: u16 = 502;

impl ErrorCode {
    /// The machine-readable text of the code.
    pub open spec fn text(self) -> Seq<char> {
        match self {
            ErrorCode::CannotParseFilename => "cannot-parse-filename"@,
            ErrorCode::EmailMissingAt => "invalid-email-address-missing-at"@,
            ErrorCode::EmailMissingDomain => "invalid-email-address-missing-domain"@,
            ErrorCode::EmailMissingLocalPart => "invalid-email-address-missing-local-part"@,
            ErrorCode::MessageIo => "io-error-with-message"@,
            ErrorCode::MissingFrom => "missing-from-in-message"@,
            ErrorCode::MissingTo => "missing-to-in-message"@,
            ErrorCode::NonAsciiChars => "non-ascii-chars-found"@,
            ErrorCode::TooManyFrom => "too-many-from-in-message"@,
            ErrorCode::SmtpTransport => "smtp-transport-error"@,
            ErrorCode::Interpolation => "interpolation-error"@,
            ErrorCode::Loading => "loading-error"@,
            ErrorCode::TemplateLoadingFailed => "template-loading-failed"@,
            ErrorCode::MetadataLoadingFailed => "metadata-loading-failed"@,
            ErrorCode::UrlBuildingFailed => "url-building-failed"@,
            ErrorCode::ExternalRequestFailed => "external-request-failed"@,
            ErrorCode::TemplateOpeningFailed => "template-opening-failed"@,
            ErrorCode::MetadataOpeningFailed => "metadata-opening-failed"@,
            ErrorCode::MetadataInvalidFormat => "metadata-invalid-format"@,
            ErrorCode::TemplateFormat => "template-format-error"@,
            ErrorCode::TemplateSizeExceeded => "template-size-exceeded"@,
            ErrorCode::TemplateMissingRoot => "template-missing-root"@,
            ErrorCode::TemplateUnexpectedToken => "template-unexpected-token"@,
            ErrorCode::TemplateIncludeLoading => "template-include-loading-error"@,
            ErrorCode::TemplateInvalidAttribute => "template-invalid-attribute"@,
            ErrorCode::TemplateInvalidFormat => "template-invalid-format"@,
            ErrorCode::TemplateMissingAttribute => "template-missing-attribute"@,
            ErrorCode::TemplateInvalidXml => "template-invalid-xml"@,
            ErrorCode::TemplateUnexpectedAttribute => "template-unexpected-attribute"@,
            ErrorCode::TemplateUnexpectedElement => "template-unexpected-element"@,
            ErrorCode::RenderingUnknownFragment => "rendering-unknown-fragment"@,
        }
    }

    /// The human-readable summary of the failure.
    pub open spec fn title_text(self) -> Seq<char> {
        match self {
            ErrorCode::CannotParseFilename => "unable to parse attachment filename"@,
            ErrorCode::EmailMissingAt => "unable to find at in email address"@,
            ErrorCode::EmailMissingDomain => "unable to find domain in email address"@,
            ErrorCode::EmailMissingLocalPart => "unable to find local part in email address"@,
            ErrorCode::MessageIo => "io error when building message"@,
            ErrorCode::MissingFrom => "couldn't find from when building message"@,
            ErrorCode::MissingTo => "couldn't find to when building message"@,
            ErrorCode::NonAsciiChars => "couldn't decode strings when building email"@,
            ErrorCode::TooManyFrom => "couldn't define a single from for message"@,
            ErrorCode::SmtpTransport => "unable to send message"@,
            ErrorCode::Interpolation => "something went wrong when interpolating values in template"@,
            ErrorCode::Loading => "something went wrong when loading template"@,
            ErrorCode::TemplateLoadingFailed => "unable to load template file"@,
            ErrorCode::MetadataLoadingFailed => "unable to load metadata file"@,
            ErrorCode::UrlBuildingFailed => "unable to build url"@,
            ErrorCode::ExternalRequestFailed => "unable to request external resource"@,
            ErrorCode::TemplateOpeningFailed => "unable to open template"@,
            ErrorCode::MetadataOpeningFailed => "unable to open metadata"@,
            ErrorCode::MetadataInvalidFormat => "unable to decode metadata"@,
            ErrorCode::TemplateFormat => "unable to decode template, reached the end early"@,
            ErrorCode::TemplateSizeExceeded => "unable to decode template, reached size limit"@,
            ErrorCode::TemplateMissingRoot => "unable to decode template, no root component"@,
            ErrorCode::TemplateUnexpectedToken => "unable to decode template, unexpected token"@,
            ErrorCode::TemplateIncludeLoading => "unable to load included template"@,
            ErrorCode::TemplateInvalidAttribute => "unable to decode template, invalid attribute"@,
            ErrorCode::TemplateInvalidFormat => "unable to decode template, invalid format"@,
            ErrorCode::TemplateMissingAttribute => "unable to decode template, missing attribute"@,
            ErrorCode::TemplateInvalidXml => "unable to decode template, invalid xml"@,
            ErrorCode::TemplateUnexpectedAttribute => "unable to decode template, unexpected attribute"@,
            ErrorCode::TemplateUnexpectedElement => "unable to decode template, unexpected element"@,
            ErrorCode::RenderingUnknownFragment => "unknown fragment"@,
        }
    }

    /// Who is to blame for the failure, in contracts.
    pub open spec fn spec_origin(self) -> Origin {
        match self {
            ErrorCode::CannotParseFilename
            | ErrorCode::EmailMissingAt
            | ErrorCode::EmailMissingDomain
            | ErrorCode::EmailMissingLocalPart
            | ErrorCode::MessageIo
            | ErrorCode::MissingFrom
            | ErrorCode::MissingTo
            | ErrorCode::NonAsciiChars
            | ErrorCode::TooManyFrom
            | ErrorCode::Interpolation
            | ErrorCode::Loading
            | ErrorCode::TemplateFormat
            | ErrorCode::TemplateSizeExceeded
            | ErrorCode::TemplateMissingRoot
            | ErrorCode::TemplateUnexpectedToken
            | ErrorCode::TemplateInvalidAttribute
            | ErrorCode::TemplateInvalidFormat
            | ErrorCode::TemplateMissingAttribute
            | ErrorCode::TemplateInvalidXml
            | ErrorCode::TemplateUnexpectedAttribute
            | ErrorCode::TemplateUnexpectedElement => Origin::CallerInput,
            ErrorCode::SmtpTransport
            | ErrorCode::TemplateLoadingFailed
            | ErrorCode::MetadataLoadingFailed
            | ErrorCode::UrlBuildingFailed
            | ErrorCode::ExternalRequestFailed
            | ErrorCode::TemplateOpeningFailed
            | ErrorCode::MetadataOpeningFailed
            | ErrorCode::MetadataInvalidFormat
            | ErrorCode::TemplateIncludeLoading => Origin::Downstream,
            ErrorCode::RenderingUnknownFragment => Origin::Internal,
        }
    }

    /// The HTTP status of the failure, in contracts.
    pub open spec fn spec_status(self) -> u16 {
        match self {
            ErrorCode::CannotParseFilename
            | ErrorCode::EmailMissingAt
            | ErrorCode::EmailMissingDomain
            | ErrorCode::EmailMissingLocalPart
            | ErrorCode::MessageIo
            | ErrorCode::MissingFrom
            | ErrorCode::MissingTo
            | ErrorCode::NonAsciiChars
            | ErrorCode::TooManyFrom
            | ErrorCode::Interpolation
            | ErrorCode::Loading
            | ErrorCode::TemplateFormat
            | ErrorCode::TemplateSizeExceeded
            | ErrorCode::TemplateMissingRoot
            | ErrorCode::TemplateUnexpectedToken
            | ErrorCode::TemplateInvalidAttribute
            | ErrorCode::TemplateInvalidFormat
            | ErrorCode::TemplateMissingAttribute
            | ErrorCode::TemplateInvalidXml
            | ErrorCode::TemplateUnexpectedAttribute
            | ErrorCode::TemplateUnexpectedElement => BAD_REQUEST,
            ErrorCode::TemplateLoadingFailed
            | ErrorCode::MetadataLoadingFailed
            | ErrorCode::UrlBuildingFailed
            | ErrorCode::ExternalRequestFailed
            | ErrorCode::TemplateOpeningFailed
            | ErrorCode::MetadataOpeningFailed
            | ErrorCode::MetadataInvalidFormat => BAD_GATEWAY,
            ErrorCode::SmtpTransport
            | ErrorCode::TemplateIncludeLoading
            | ErrorCode::RenderingUnknownFragment => INTERNAL_SERVER_ERROR,
        }
    }

    /// The machine-readable text of the code, as it is published.
    pub fn as_str(self) -> (r: &'static str)
        ensures
            r@ == self.text(),
    {
        match self {
            ErrorCode::CannotParseFilename => "cannot-parse-filename",
            ErrorCode::EmailMissingAt => "invalid-email-address-missing-at",
            ErrorCode::EmailMissingDomain => "invalid-email-address-missing-domain",
            ErrorCode::EmailMissingLocalPart => "invalid-email-address-missing-local-part",
            ErrorCode::MessageIo => "io-error-with-message",
            ErrorCode::MissingFrom => "missing-from-in-message",
            ErrorCode::MissingTo => "missing-to-in-message",
            ErrorCode::NonAsciiChars => "non-ascii-chars-found",
            ErrorCode::TooManyFrom => "too-many-from-in-message",
            ErrorCode::SmtpTransport => "smtp-transport-error",
            ErrorCode::Interpolation => "interpolation-error",
            ErrorCode::Loading => "loading-error",
            ErrorCode::TemplateLoadingFailed => "template-loading-failed",
            ErrorCode::MetadataLoadingFailed => "metadata-loading-failed",
            ErrorCode::UrlBuildingFailed => "url-building-failed",
            ErrorCode::ExternalRequestFailed => "external-request-failed",
            ErrorCode::TemplateOpeningFailed => "template-opening-failed",
            ErrorCode::MetadataOpeningFailed => "metadata-opening-failed",
            ErrorCode::MetadataInvalidFormat => "metadata-invalid-format",
            ErrorCode::TemplateFormat => "template-format-error",
            ErrorCode::TemplateSizeExceeded => "template-size-exceeded",
            ErrorCode::TemplateMissingRoot => "template-missing-root",
            ErrorCode::TemplateUnexpectedToken => "template-unexpected-token",
            ErrorCode::TemplateIncludeLoading => "template-include-loading-error",
            ErrorCode::TemplateInvalidAttribute => "template-invalid-attribute",
            ErrorCode::TemplateInvalidFormat => "template-invalid-format",
            ErrorCode::TemplateMissingAttribute => "template-missing-attribute",
            ErrorCode::TemplateInvalidXml => "template-invalid-xml",
            ErrorCode::TemplateUnexpectedAttribute => "template-unexpected-attribute",
            ErrorCode::TemplateUnexpectedElement => "template-unexpected-element",
            ErrorCode::RenderingUnknownFragment => "rendering-unknown-fragment",
        }
    }

    /// The human-readable summary of the failure.
    pub fn title(self) -> (r: &'static str)
        ensures
            r@ == self.title_text(),
    {
        match self {
            ErrorCode::CannotParseFilename => "unable to parse attachment filename",
            ErrorCode::EmailMissingAt => "unable to find at in email address",
            ErrorCode::EmailMissingDomain => "unable to find domain in email address",
            ErrorCode::EmailMissingLocalPart => "unable to find local part in email address",
            ErrorCode::MessageIo => "io error when building message",
            ErrorCode::MissingFrom => "couldn't find from when building message",
            ErrorCode::MissingTo => "couldn't find to when building message",
            ErrorCode::NonAsciiChars => "couldn't decode strings when building email",
            ErrorCode::TooManyFrom => "couldn't define a single from for message",
            ErrorCode::SmtpTransport => "unable to send message",
            ErrorCode::Interpolation => "something went wrong when interpolating values in template",
            ErrorCode::Loading => "something went wrong when loading template",
            ErrorCode::TemplateLoadingFailed => "unable to load template file",
            ErrorCode::MetadataLoadingFailed => "unable to load metadata file",
            ErrorCode::UrlBuildingFailed => "unable to build url",
            ErrorCode::ExternalRequestFailed => "unable to request external resource",
            ErrorCode::TemplateOpeningFailed => "unable to open template",
            ErrorCode::MetadataOpeningFailed => "unable to open metadata",
            ErrorCode::MetadataInvalidFormat => "unable to decode metadata",
            ErrorCode::TemplateFormat => "unable to decode template, reached the end early",
            ErrorCode::TemplateSizeExceeded => "unable to decode template, reached size limit",
            ErrorCode::TemplateMissingRoot => "unable to decode template, no root component",
            ErrorCode::TemplateUnexpectedToken => "unable to decode template, unexpected token",
            ErrorCode::TemplateIncludeLoading => "unable to load included template",
            ErrorCode::TemplateInvalidAttribute => "unable to decode template, invalid attribute",
            ErrorCode::TemplateInvalidFormat => "unable to decode template, invalid format",
            ErrorCode::TemplateMissingAttribute => "unable to decode template, missing attribute",
            ErrorCode::TemplateInvalidXml => "unable to decode template, invalid xml",
            ErrorCode::TemplateUnexpectedAttribute => "unable to decode template, unexpected attribute",
            ErrorCode::TemplateUnexpectedElement => "unable to decode template, unexpected element",
            ErrorCode::RenderingUnknownFragment => "unknown fragment",
        }
    }

    /// Who is to blame for the failure.
    #[verifier::when_used_as_spec(spec_origin)]
    pub fn origin(self) -> (r: Origin)
        ensures
            r == self.origin(),
    {
        match self {
            ErrorCode::CannotParseFilename
            | ErrorCode::EmailMissingAt
            | ErrorCode::EmailMissingDomain
            | ErrorCode::EmailMissingLocalPart
            | ErrorCode::MessageIo
            | ErrorCode::MissingFrom
            | ErrorCode::MissingTo
            | ErrorCode::NonAsciiChars
            | ErrorCode::TooManyFrom
            | ErrorCode::Interpolation
            | ErrorCode::Loading
            | ErrorCode::TemplateFormat
            | ErrorCode::TemplateSizeExceeded
            | ErrorCode::TemplateMissingRoot
            | ErrorCode::TemplateUnexpectedToken
            | ErrorCode::TemplateInvalidAttribute
            | ErrorCode::TemplateInvalidFormat
            | ErrorCode::TemplateMissingAttribute
            | ErrorCode::TemplateInvalidXml
            | ErrorCode::TemplateUnexpectedAttribute
            | ErrorCode::TemplateUnexpectedElement => Origin::CallerInput,
            ErrorCode::SmtpTransport
            | ErrorCode::TemplateLoadingFailed
            | ErrorCode::MetadataLoadingFailed
            | ErrorCode::UrlBuildingFailed
            | ErrorCode::ExternalRequestFailed
            | ErrorCode::TemplateOpeningFailed
            | ErrorCode::MetadataOpeningFailed
            | ErrorCode::MetadataInvalidFormat
            | ErrorCode::TemplateIncludeLoading => Origin::Downstream,
            ErrorCode::RenderingUnknownFragment => Origin::Internal,
        }
    }

    /// The HTTP status of the failure: a client error where the caller's
    /// input is at fault, a server error otherwise.
    #[verifier::when_used_as_spec(spec_status)]
    pub fn status(self) -> (r: u16)
        ensures
            r == self.status(),
            self.origin() == Origin::CallerInput ==> 400 <= r < 500,
            self.origin() != Origin::CallerInput ==> 500 <= r < 600,
    {
        match self {
            ErrorCode::CannotParseFilename
            | ErrorCode::EmailMissingAt
            | ErrorCode::EmailMissingDomain
            | ErrorCode::EmailMissingLocalPart
            | ErrorCode::MessageIo
            | ErrorCode::MissingFrom
            | ErrorCode::MissingTo
            | ErrorCode::NonAsciiChars
            | ErrorCode::TooManyFrom
            | ErrorCode::Interpolation
            | ErrorCode::Loading
            | ErrorCode::TemplateFormat
            | ErrorCode::TemplateSizeExceeded
            | ErrorCode::TemplateMissingRoot
            | ErrorCode::TemplateUnexpectedToken
            | ErrorCode::TemplateInvalidAttribute
            | ErrorCode::TemplateInvalidFormat
            | ErrorCode::TemplateMissingAttribute
            | ErrorCode::TemplateInvalidXml
            | ErrorCode::TemplateUnexpectedAttribute
            | ErrorCode::TemplateUnexpectedElement => BAD_REQUEST,
            ErrorCode::TemplateLoadingFailed
            | ErrorCode::MetadataLoadingFailed
            | ErrorCode::UrlBuildingFailed
            | ErrorCode::ExternalRequestFailed
            | ErrorCode::TemplateOpeningFailed
            | ErrorCode::MetadataOpeningFailed
            | ErrorCode::MetadataInvalidFormat => BAD_GATEWAY,
            ErrorCode::SmtpTransport
            | ErrorCode::TemplateIncludeLoading
            | ErrorCode::RenderingUnknownFragment => INTERNAL_SERVER_ERROR,
        }
    }
}

/// Whether `status` is a client-error status.
pub open spec fn is_client_error(status: u16) -> bool {
    400 <= status < 500
}

/// Whether `status` is a server-error status.
pub open spec fn is_server_error(status: u16) -> bool {
    500 <= status < 600
}

/// The status of a code follows from who is to blame: a client error
/// exactly for the caller's input, a server error for every other failure.
pub proof fn lemma_status_follows_origin(code: ErrorCode)
    ensures
        code.origin() == Origin::CallerInput <==> is_client_error(code.status()),
        code.origin() != Origin::CallerInput <==> is_server_error(code.status()),
{
}

/// Three marks of the text of a code: its length, its first and its tenth
/// character. No two codes have the same three.
spec fn marks(code: ErrorCode) -> (nat, char, char) {
    match code {
        ErrorCode::CannotParseFilename => (21, 'c', 'r'),
        ErrorCode::EmailMissingAt => (32, 'i', 'm'),
        ErrorCode::EmailMissingDomain => (36, 'i', 'm'),
        ErrorCode::EmailMissingLocalPart => (40, 'i', 'm'),
        ErrorCode::MessageIo => (21, 'i', 'w'),
        ErrorCode::MissingFrom => (23, 'm', 'r'),
        ErrorCode::MissingTo => (21, 'm', 'o'),
        ErrorCode::NonAsciiChars => (21, 'n', '-'),
        ErrorCode::TooManyFrom => (24, 't', 'f'),
        ErrorCode::SmtpTransport => (20, 's', 's'),
        ErrorCode::Interpolation => (19, 'i', 't'),
        ErrorCode::Loading => (13, 'l', 'r'),
        ErrorCode::TemplateLoadingFailed => (23, 't', 'l'),
        ErrorCode::MetadataLoadingFailed => (23, 'm', 'l'),
        ErrorCode::UrlBuildingFailed => (19, 'u', 'i'),
        ErrorCode::ExternalRequestFailed => (23, 'e', 'r'),
        ErrorCode::TemplateOpeningFailed => (23, 't', 'o'),
        ErrorCode::MetadataOpeningFailed => (23, 'm', 'o'),
        ErrorCode::MetadataInvalidFormat => (23, 'm', 'i'),
        ErrorCode::TemplateFormat => (21, 't', 'f'),
        ErrorCode::TemplateSizeExceeded => (22, 't', 's'),
        ErrorCode::TemplateMissingRoot => (21, 't', 'm'),
        ErrorCode::TemplateUnexpectedToken => (25, 't', 'u'),
        ErrorCode::TemplateIncludeLoading => (30, 't', 'i'),
        ErrorCode::TemplateInvalidAttribute => (26, 't', 'i'),
        ErrorCode::TemplateInvalidFormat => (23, 't', 'i'),
        ErrorCode::TemplateMissingAttribute => (26, 't', 'm'),
        ErrorCode::TemplateInvalidXml => (20, 't', 'i'),
        ErrorCode::TemplateUnexpectedAttribute => (29, 't', 'u'),
        ErrorCode::TemplateUnexpectedElement => (27, 't', 'u'),
        ErrorCode::RenderingUnknownFragment => (26, 'r', '-'),
    }
}

/// The text of a code has the marks of that code.
proof fn lemma_code_text_marks(code: ErrorCode)
    ensures
        code.text().len() == marks(code).0,
        code.text()[0] == marks(code).1,
        code.text()[9] == marks(code).2,
{
    reveal_strlit("cannot-parse-filename");
    reveal_strlit("invalid-email-address-missing-at");
    reveal_strlit("invalid-email-address-missing-domain");
    reveal_strlit("invalid-email-address-missing-local-part");
    reveal_strlit("io-error-with-message");
    reveal_strlit("missing-from-in-message");
    reveal_strlit("missing-to-in-message");
    reveal_strlit("non-ascii-chars-found");
    reveal_strlit("too-many-from-in-message");
    reveal_strlit("smtp-transport-error");
    reveal_strlit("interpolation-error");
    reveal_strlit("loading-error");
    reveal_strlit("template-loading-failed");
    reveal_strlit("metadata-loading-failed");
    reveal_strlit("url-building-failed");
    reveal_strlit("external-request-failed");
    reveal_strlit("template-opening-failed");
    reveal_strlit("metadata-opening-failed");
    reveal_strlit("metadata-invalid-format");
    reveal_strlit("template-format-error");
    reveal_strlit("template-size-exceeded");
    reveal_strlit("template-missing-root");
    reveal_strlit("template-unexpected-token");
    reveal_strlit("template-include-loading-error");
    reveal_strlit("template-invalid-attribute");
    reveal_strlit("template-invalid-format");
    reveal_strlit("template-missing-attribute");
    reveal_strlit("template-invalid-xml");
    reveal_strlit("template-unexpected-attribute");
    reveal_strlit("template-unexpected-element");
    reveal_strlit("rendering-unknown-fragment");
}

/// No two codes share a text: the text of a code identifies the failure.
pub proof fn lemma_code_text_injective(a: ErrorCode, b: ErrorCode)
    requires
        a.text() == b.text(),
    ensures
        a == b,
{
    lemma_code_text_marks(a);
    lemma_code_text_marks(b);
    assert(marks(a) == marks(b));
}

/// The code of a failure of the transport is the code of no failure that
/// the caller's input causes.
pub proof fn lemma_transport_code_is_no_caller_input_code(code: ErrorCode)
    requires
        code.origin() == Origin::CallerInput,
    ensures
        code.text() != ErrorCode::SmtpTransport.text(),
        code.status() != ErrorCode::SmtpTransport.status(),
{
    if code.text() == ErrorCode::SmtpTransport.text() {
        lemma_code_text_injective(code, ErrorCode::SmtpTransport);
    }
}

} // verus!
