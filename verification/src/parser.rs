//! Failures of template parsing.
use vstd::prelude::*;
use crate::cause::Cause;
use crate::code::ErrorCode;
use crate::record::{response_of, ErrorResponse, ResponseView};
use crate::span::{lemma_positioned_contains_position, position_detail, positioned, Span};
use crate::text::{contains, debug_quote, debug_quoted, texts};

verus! {

/// A failure of parsing a template.
#[derive(Debug, PartialEq, Eq)]
pub enum ParserError {
    /// The source ended before the template was complete.
    EndOfStream,
    /// The source is larger than the parser accepts.
    SizeLimit,
    /// The template has no root component.
    NoRootNode,
    /// A token stands where none of its kind may stand.
    UnexpectedToken(Span),
    /// A template included by this one could not be loaded.
    IncludeLoaderError(Cause),
    /// An attribute has an invalid value.
    InvalidAttribute(Span),
    /// A part of the source is not in the expected format.
    InvalidFormat(Span),
    /// An element lacks the required attribute of the given name.
    MissingAttribute(String, Span),
    /// The source is not well-formed XML.
    ParserError(Cause),
    /// An element has an attribute that it may not have.
    UnexpectedAttribute(Span),
    /// An element stands where none of its kind may stand.
    UnexpectedElement(Span),
}

/// The diagnostic text of a missing attribute, from the quoted name of the
/// attribute and the position of the element.
pub open spec fn missing_attribute_text(quoted_name: Seq<char>, span: Span) -> Seq<char> {
    positioned("Missing attribute "@ + quoted_name, span)
}

/// The diagnostic text of a source that is not well-formed XML, from the
/// internal rendering of what the XML reader reported.
pub open spec fn parser_failed_text(rendering: Seq<char>) -> Seq<char> {
    "Parser failed: "@ + rendering
}

/// Writes the diagnostic text of a missing attribute:
/// `Missing attribute <quoted name> at position <start>:<end>`.
pub fn missing_attribute_detail(quoted_name: &str, span: Span) -> (r: String)
    ensures
        r@ == missing_attribute_text(quoted_name@, span),
{
    let mut description = String::from_str("Missing attribute ");
    description.append(quoted_name);
    position_detail(description.as_str(), span)
}

/// Writes the diagnostic text of a source that is not well-formed XML:
/// `Parser failed: <rendering>`.
pub fn parser_failed_detail(rendering: &str) -> (r: String)
    ensures
        r@ == parser_failed_text(rendering@),
{
    let mut r = String::from_str("Parser failed: ");
    r.append(rendering);
    r
}

impl ParserError {
    /// The published code of the failure.
    pub open spec fn code(&self) -> ErrorCode {
        match self {
            ParserError::EndOfStream => ErrorCode::TemplateFormat,
            ParserError::SizeLimit => ErrorCode::TemplateSizeExceeded,
            ParserError::NoRootNode => ErrorCode::TemplateMissingRoot,
            ParserError::UnexpectedToken(_) => ErrorCode::TemplateUnexpectedToken,
            ParserError::IncludeLoaderError(_) => ErrorCode::TemplateIncludeLoading,
            ParserError::InvalidAttribute(_) => ErrorCode::TemplateInvalidAttribute,
            ParserError::InvalidFormat(_) => ErrorCode::TemplateInvalidFormat,
            ParserError::MissingAttribute(_, _) => ErrorCode::TemplateMissingAttribute,
            ParserError::ParserError(_) => ErrorCode::TemplateInvalidXml,
            ParserError::UnexpectedAttribute(_) => ErrorCode::TemplateUnexpectedAttribute,
            ParserError::UnexpectedElement(_) => ErrorCode::TemplateUnexpectedElement,
        }
    }

    /// The position in the source at which the failure occurred, for the
    /// variants that carry one.
    pub open spec fn span(&self) -> Option<Span> {
        match self {
            ParserError::UnexpectedToken(span) => Some(*span),
            ParserError::InvalidAttribute(span) => Some(*span),
            ParserError::InvalidFormat(span) => Some(*span),
            ParserError::MissingAttribute(_, span) => Some(*span),
            ParserError::UnexpectedAttribute(span) => Some(*span),
            ParserError::UnexpectedElement(span) => Some(*span),
            _ => None,
        }
    }

    /// The diagnostic strings of the failure: the position for the variants
    /// that carry one, the reader's report for a source that is not
    /// well-formed XML, and none for the others.
    pub open spec fn details(&self) -> Seq<Seq<char>> {
        match self {
            ParserError::UnexpectedToken(span) => seq![positioned("Unexpected token"@, *span)],
            ParserError::InvalidAttribute(span) => seq![positioned("Invalid attribute"@, *span)],
            ParserError::InvalidFormat(span) => seq![positioned("Invalid format"@, *span)],
            ParserError::MissingAttribute(name, span) => seq![
                missing_attribute_text(debug_quoted(name@), *span),
            ],
            ParserError::ParserError(cause) => seq![parser_failed_text(cause.debug@)],
            ParserError::UnexpectedAttribute(span) => seq![
                positioned("Unexpected attribute"@, *span),
            ],
            ParserError::UnexpectedElement(span) => seq![
                positioned("Unexpected element"@, *span),
            ],
            _ => Seq::empty(),
        }
    }

    /// Whether `self` and `other` are the same variant, whatever they carry.
    pub open spec fn same_variant(&self, other: &ParserError) -> bool {
        match (self, other) {
            (ParserError::EndOfStream, ParserError::EndOfStream) => true,
            (ParserError::SizeLimit, ParserError::SizeLimit) => true,
            (ParserError::NoRootNode, ParserError::NoRootNode) => true,
            (ParserError::UnexpectedToken(_), ParserError::UnexpectedToken(_)) => true,
            (ParserError::IncludeLoaderError(_), ParserError::IncludeLoaderError(_)) => true,
            (ParserError::InvalidAttribute(_), ParserError::InvalidAttribute(_)) => true,
            (ParserError::InvalidFormat(_), ParserError::InvalidFormat(_)) => true,
            (ParserError::MissingAttribute(_, _), ParserError::MissingAttribute(_, _)) => true,
            (ParserError::ParserError(_), ParserError::ParserError(_)) => true,
            (ParserError::UnexpectedAttribute(_), ParserError::UnexpectedAttribute(_)) => true,
            (ParserError::UnexpectedElement(_), ParserError::UnexpectedElement(_)) => true,
            _ => false,
        }
    }

    /// The record of the failure.
    pub open spec fn response(&self) -> ResponseView {
        response_of(self.code(), self.details())
    }
}

impl From<ParserError> for ErrorResponse {
    /// Maps a failure of parsing. Malformed markup is the caller's
    /// fault; an included template that cannot be loaded is not.
    fn from(value: ParserError) -> (r: ErrorResponse)
        ensures
            r@ == value.response(),
    {
        let (code, details): (ErrorCode, Vec<String>) = match value {
            ParserError::EndOfStream => (ErrorCode::TemplateFormat, Vec::new()),
            ParserError::SizeLimit => (ErrorCode::TemplateSizeExceeded, Vec::new()),
            ParserError::NoRootNode => (ErrorCode::TemplateMissingRoot, Vec::new()),
            ParserError::UnexpectedToken(span) => (
                ErrorCode::TemplateUnexpectedToken,
                vec![position_detail("Unexpected token", span)],
            ),
            ParserError::IncludeLoaderError(_) => (ErrorCode::TemplateIncludeLoading, Vec::new()),
            ParserError::InvalidAttribute(span) => (
                ErrorCode::TemplateInvalidAttribute,
                vec![position_detail("Invalid attribute", span)],
            ),
            ParserError::InvalidFormat(span) => (
                ErrorCode::TemplateInvalidFormat,
                vec![position_detail("Invalid format", span)],
            ),
            ParserError::MissingAttribute(name, span) => (
                ErrorCode::TemplateMissingAttribute,
                vec![missing_attribute_detail(debug_quote(name.as_str()).as_str(), span)],
            ),
            ParserError::ParserError(cause) => (
                ErrorCode::TemplateInvalidXml,
                vec![parser_failed_detail(cause.debug.as_str())],
            ),
            ParserError::UnexpectedAttribute(span) => (
                ErrorCode::TemplateUnexpectedAttribute,
                vec![position_detail("Unexpected attribute", span)],
            ),
            ParserError::UnexpectedElement(span) => (
                ErrorCode::TemplateUnexpectedElement,
                vec![position_detail("Unexpected element", span)],
            ),
        };
        assert(texts(details@) =~= value.details());
        ErrorResponse::new(code, details)
    }
}

impl vstd::std_specs::convert::FromSpecImpl<ParserError> for ErrorResponse {
    open spec fn obeys_from_spec() -> bool {
        false
    }

    open spec fn from_spec(value: ParserError) -> ErrorResponse {
        arbitrary()
    }
}

/// Two failures of parsing that are the same variant have the same status,
/// code and title, whatever they carry.
pub proof fn lemma_parser_same_variant(a: ParserError, b: ParserError)
    requires
        a.same_variant(&b),
    ensures
        a.response().status == b.response().status,
        a.response().code == b.response().code,
        a.response().title == b.response().title,
{
}

/// A failure of parsing that carries a position has exactly one detail,
/// which ends with `<start>:<end>`, so the position occurs in it.
pub proof fn lemma_parser_detail_has_position(failure: ParserError)
    ensures
        failure.span() matches Some(span) ==> failure.response().details.len() == 1 && contains(
            failure.response().details[0],
            span.position(),
        ),
{
    match failure {
        ParserError::UnexpectedToken(span) => {
            lemma_positioned_contains_position("Unexpected token"@, span);
        },
        ParserError::InvalidAttribute(span) => {
            lemma_positioned_contains_position("Invalid attribute"@, span);
        },
        ParserError::InvalidFormat(span) => {
            lemma_positioned_contains_position("Invalid format"@, span);
        },
        ParserError::MissingAttribute(name, span) => {
            lemma_positioned_contains_position(
                "Missing attribute "@ + debug_quoted(name@),
                span,
            );
        },
        ParserError::UnexpectedAttribute(span) => {
            lemma_positioned_contains_position("Unexpected attribute"@, span);
        },
        ParserError::UnexpectedElement(span) => {
            lemma_positioned_contains_position("Unexpected element"@, span);
        },
        _ => {},
    }
}

} // verus!
