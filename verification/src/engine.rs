//! Failures of the templating engine as a whole.
use vstd::prelude::*;
use crate::cause::Cause;
use crate::code::ErrorCode;
use crate::loader::LoaderError;
use crate::message::{classified, classify, MessageError};
use crate::parser::ParserError;
use crate::record::{response_of, ErrorResponse, ResponseView};
use crate::render::RenderError;
use crate::text::texts;

verus! {

/// A failure of generating an email from a template.
#[derive(Debug, PartialEq, Eq)]
pub enum EngineError {
    /// The message could not be built from the rendered template.
    Building(MessageError),
    /// The values given for the template could not be interpolated.
    Interpolation(Cause),
    /// The template could not be loaded.
    Loading(LoaderError),
    /// The template could not be parsed.
    Parsing(ParserError),
    /// The template could not be rendered.
    Rendering(RenderError),
}

impl EngineError {
    /// The published code of the failure: that of the layer that failed.
    pub open spec fn code(&self) -> ErrorCode {
        match self {
            EngineError::Building(inner) => inner.code(),
            EngineError::Interpolation(_) => ErrorCode::Interpolation,
            EngineError::Loading(inner) => inner.code(),
            EngineError::Parsing(inner) => inner.code(),
            EngineError::Rendering(inner) => inner.code(),
        }
    }

    /// Whether `self` and `other` are the same variant and wrap the same
    /// variant of the layer below, whatever that carries.
    pub open spec fn same_variant(&self, other: &EngineError) -> bool {
        match (self, other) {
            (EngineError::Building(a), EngineError::Building(b)) => a.same_variant(b),
            (EngineError::Interpolation(_), EngineError::Interpolation(_)) => true,
            (EngineError::Loading(a), EngineError::Loading(b)) => a.same_variant(b),
            (EngineError::Parsing(a), EngineError::Parsing(b)) => a.same_variant(b),
            (EngineError::Rendering(_), EngineError::Rendering(_)) => true,
            _ => false,
        }
    }

    /// The record of the failure. A failure of a layer below has the record
    /// of that layer, unchanged; a failure of interpolation is a bad request
    /// with the message of its cause as the one detail.
    pub open spec fn response(&self) -> ResponseView {
        match self {
            EngineError::Building(inner) => inner.response(),
            EngineError::Interpolation(cause) => response_of(
                ErrorCode::Interpolation,
                seq![cause.message@],
            ),
            EngineError::Loading(inner) => inner.response(),
            EngineError::Parsing(inner) => inner.response(),
            EngineError::Rendering(inner) => inner.response(),
        }
    }
}

impl From<EngineError> for ErrorResponse {
    /// Maps a failure of the engine by handing it to the mapping of
    /// the layer that failed.
    fn from(value: EngineError) -> (r: ErrorResponse)
        ensures
            r@ == value.response(),
    {
        match value {
            EngineError::Building(inner) => ErrorResponse::from(inner),
            EngineError::Interpolation(cause) => {
                let details = vec![cause.message];
                assert(texts(details@) =~= seq![cause.message@]);
                ErrorResponse::new(ErrorCode::Interpolation, details)
            },
            EngineError::Loading(inner) => ErrorResponse::from(inner),
            EngineError::Parsing(inner) => ErrorResponse::from(inner),
            EngineError::Rendering(inner) => ErrorResponse::from(inner),
        }
    }
}

impl vstd::std_specs::convert::FromSpecImpl<EngineError> for ErrorResponse {
    open spec fn obeys_from_spec() -> bool {
        false
    }

    open spec fn from_spec(value: EngineError) -> ErrorResponse {
        arbitrary()
    }
}

impl From<lettre::error::Error> for EngineError {
    /// Wraps a failure that the message builder reported while the engine
    /// built the message, as the [`MessageError`] that stands for it.
    fn from(value: lettre::error::Error) -> (r: EngineError)
        ensures
            r == EngineError::Building(classified(value)),
    {
        EngineError::Building(classify(value))
    }
}

impl vstd::std_specs::convert::FromSpecImpl<lettre::error::Error> for EngineError {
    open spec fn obeys_from_spec() -> bool {
        true
    }

    open spec fn from_spec(value: lettre::error::Error) -> EngineError {
        EngineError::Building(classified(value))
    }
}

/// Two failures of the engine that are the same variant, down to the layer
/// that failed, have the same status, code and title, whatever they carry.
pub proof fn lemma_engine_same_variant(a: EngineError, b: EngineError)
    requires
        a.same_variant(&b),
    ensures
        a.response().status == b.response().status,
        a.response().code == b.response().code,
        a.response().title == b.response().title,
{
}

} // verus!
