//! The normalized record of a failure and the body that goes on the wire.
use vstd::prelude::*;
use crate::code::ErrorCode;
use crate::text::texts;

verus! {

/// What an [`ErrorResponse`] holds, as plain mathematical values.
pub struct ResponseView {
    pub status: u16,
    pub code: Seq<char>,
    pub title: Seq<char>,
    pub details: Seq<Seq<char>>,
}

/// The record that stands for the failure `code` with the diagnostic
/// strings `details`.
pub open spec fn response_of(code: ErrorCode, details: Seq<Seq<char>>) -> ResponseView {
    ResponseView { status: code.status(), code: code.text(), title: code.title_text(), details }
}

/// What an [`ErrorBody`] holds, as plain mathematical values.
pub struct BodyView {
    pub code: Seq<char>,
    pub title: Seq<char>,
    pub details: Option<Seq<Seq<char>>>,
}

/// The body that goes on the wire for a record: its code and title, and its
/// diagnostic strings in order, left out altogether where there are none.
/// The status is no part of the body.
pub open spec fn body_of(response: ResponseView) -> BodyView {
    BodyView {
        code: response.code,
        title: response.title,
        details: if response.details.len() == 0 {
            None
        } else {
            Some(response.details)
        },
    }
}

/// The payload of an error response. A field that is `None` is absent from
/// the payload.
#[derive(Debug, PartialEq, Eq)]
pub struct ErrorBody {
    pub code: &'static str,
    pub title: &'static str,
    pub details: Option<Vec<String>>,
}

impl View for ErrorBody {
    type V = BodyView;

    open spec fn view(&self) -> BodyView {
        BodyView {
            code: self.code@,
            title: self.title@,
            details: match self.details {
                Some(list) => Some(texts(list@)),
                None => None,
            },
        }
    }
}

/// The normalized, wire-facing record of one failure: the HTTP status, the
/// stable code, the title and the ordered diagnostic strings. Status, code
/// and title always belong to one and the same [`ErrorCode`].
#[derive(Debug, PartialEq, Eq)]
pub struct ErrorResponse {
    status: u16,
    code: &'static str,
    title: &'static str,
    details: Vec<String>,
}

impl View for ErrorResponse {
    type V = ResponseView;

    closed spec fn view(&self) -> ResponseView {
        ResponseView {
            status: self.status,
            code: self.code@,
            title: self.title@,
            details: texts(self.details@),
        }
    }
}

impl ErrorResponse {
    #[verifier::type_invariant]
    spec fn coupled(&self) -> bool {
        exists|code: ErrorCode|
            self.status == code.status() && self.code@ == code.text() && self.title@
                == code.title_text()
    }

    /// Makes the record of the failure `code` with the diagnostic strings
    /// `details`.
    pub fn new(code: ErrorCode, details: Vec<String>) -> (r: ErrorResponse)
        ensures
            r@ == response_of(code, texts(details@)),
    {
        ErrorResponse { status: code.status(), code: code.as_str(), title: code.title(), details }
    }

    /// The HTTP status: that of the published code whose text and title
    /// the record carries, so always a client-error or a server-error status.
    pub fn status(&self) -> (r: u16)
        ensures
            r == self@.status,
            exists|code: ErrorCode| self@ == response_of(code, self@.details),
            400 <= r < 600,
    {
        proof {
            use_type_invariant(self);
            let code = choose|code: ErrorCode|
                self.status == code.status() && self.code@ == code.text() && self.title@
                    == code.title_text();
            assert(self@ == response_of(code, self@.details));
        }
        self.status
    }

    /// The stable machine-readable code.
    pub fn code(&self) -> (r: &'static str)
        ensures
            r@ == self@.code,
    {
        self.code
    }

    /// The short human-readable summary.
    pub fn title(&self) -> (r: &'static str)
        ensures
            r@ == self@.title,
    {
        self.title
    }

    /// Turns the record into the body of its response.
    pub fn into_body(self) -> (r: ErrorBody)
        ensures
            r@ == body_of(self@),
            r.details is None <==> self@.details.len() == 0,
            r.details matches Some(list) ==> texts(list@) == self@.details,
    {
        let code = self.code;
        let title = self.title;
        let details = if self.details.len() == 0 {
            None
        } else {
            Some(self.details)
        };
        ErrorBody { code, title, details }
    }

    /// The diagnostic strings, in order.
    pub fn details(&self) -> (r: &Vec<String>)
        ensures
            texts(r@) == self@.details,
    {
        &self.details
    }
}

} // verus!
