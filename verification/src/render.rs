//! Failures of template rendering.
use vstd::prelude::*;
use crate::code::ErrorCode;
use crate::record::{response_of, ErrorResponse, ResponseView};
use crate::text::texts;

verus! {

/// A failure of rendering a template.
#[derive(Debug, PartialEq, Eq)]
pub enum RenderError {
    /// The template refers to the fragment of the given name, which is not
    /// defined: a defect of the engine or of the template, not of the
    /// request.
    UnknownFragment(String),
}

impl RenderError {
    /// The published code of the failure.
    pub open spec fn code(&self) -> ErrorCode {
        ErrorCode::RenderingUnknownFragment
    }

    /// The record of the failure: an internal server error without details,
    /// as there is nothing in it that the caller could act on.
    pub open spec fn response(&self) -> ResponseView {
        response_of(ErrorCode::RenderingUnknownFragment, Seq::empty())
    }
}

impl From<RenderError> for ErrorResponse {
    /// Maps a failure of rendering: an internal server error without
    /// details.
    fn from(value: RenderError) -> (r: ErrorResponse)
        ensures
            r@ == value.response(),
            r@.status == 500,
            r@.details.len() == 0,
    {
        let details: Vec<String> = Vec::new();
        assert(texts(details@) =~= Seq::<Seq<char>>::empty());
        match value {
            RenderError::UnknownFragment(_) => ErrorResponse::new(
                ErrorCode::RenderingUnknownFragment,
                details,
            ),
        }
    }
}

impl vstd::std_specs::convert::FromSpecImpl<RenderError> for ErrorResponse {
    open spec fn obeys_from_spec() -> bool {
        false
    }

    open spec fn from_spec(value: RenderError) -> ErrorResponse {
        arbitrary()
    }
}

} // verus!
