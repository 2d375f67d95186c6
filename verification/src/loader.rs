//! Failures of template loading: from local files, from remote sources, and
//! the aggregate of several sources that all failed.
use vstd::prelude::*;
use crate::cause::Cause;
use crate::code::ErrorCode;
use crate::record::{response_of, ErrorResponse, ResponseView};
use crate::text::{
    contains, enclose, enclosed, join, joined, lemma_contains_transitive,
    lemma_enclosed_contains, lemma_joined_contains, texts,
};

verus! {

/// A failure of loading a template from local files.
#[derive(Debug, PartialEq, Eq)]
pub enum LocalError {
    /// The template file could not be opened.
    TemplateOpenFailed(Cause),
    /// The metadata file could not be opened.
    MetadataOpenFailed(Cause),
    /// The metadata file could not be decoded.
    MetadataFormatInvalid(Cause),
}

/// A failure of loading a template from a remote source.
#[derive(Debug, PartialEq, Eq)]
pub enum HttpError {
    /// The template file could not be fetched.
    TemplateLoadingFailed(Cause),
    /// The metadata file could not be fetched.
    MetadataLoadingFailed(Cause),
    /// The address of the metadata file could not be built.
    MetadataUrlInvalid(Cause),
    /// The request failed.
    RequestFailed(Cause),
}

/// A failure of loading a template.
#[derive(Debug, PartialEq, Eq)]
pub enum LoaderError {
    /// Several candidate sources were tried and each of them failed, in the
    /// order in which they were tried.
    Multiple(Vec<LoaderError>),
    /// A remote source failed.
    Http(HttpError),
    /// A local source failed.
    Local(LocalError),
}

impl LocalError {
    /// The published code of the failure.
    pub open spec fn code(&self) -> ErrorCode {
        match self {
            LocalError::TemplateOpenFailed(_) => ErrorCode::TemplateOpeningFailed,
            LocalError::MetadataOpenFailed(_) => ErrorCode::MetadataOpeningFailed,
            LocalError::MetadataFormatInvalid(_) => ErrorCode::MetadataInvalidFormat,
        }
    }

    /// The lower-layer failure that the variant wraps.
    pub open spec fn cause(&self) -> Cause {
        match self {
            LocalError::TemplateOpenFailed(cause) => *cause,
            LocalError::MetadataOpenFailed(cause) => *cause,
            LocalError::MetadataFormatInvalid(cause) => *cause,
        }
    }

    /// The name of the variant.
    pub open spec fn variant_name(&self) -> Seq<char> {
        match self {
            LocalError::TemplateOpenFailed(_) => "TemplateOpenFailed"@,
            LocalError::MetadataOpenFailed(_) => "MetadataOpenFailed"@,
            LocalError::MetadataFormatInvalid(_) => "MetadataFormatInvalid"@,
        }
    }

    /// Whether `self` and `other` are the same variant, whatever they wrap.
    pub open spec fn same_variant(&self, other: &LocalError) -> bool {
        match (self, other) {
            (LocalError::TemplateOpenFailed(_), LocalError::TemplateOpenFailed(_)) => true,
            (LocalError::MetadataOpenFailed(_), LocalError::MetadataOpenFailed(_)) => true,
            (LocalError::MetadataFormatInvalid(_), LocalError::MetadataFormatInvalid(_)) => true,
            _ => false,
        }
    }

    /// The record of the failure: its code with the message of the wrapped
    /// cause as the one detail.
    pub open spec fn response(&self) -> ResponseView {
        response_of(self.code(), seq![self.cause().message@])
    }

    /// The internal rendering of the failure: the name of the variant with
    /// the internal rendering of the wrapped cause in round brackets.
    pub open spec fn debug_text(&self) -> Seq<char> {
        enclosed(self.variant_name(), "("@, self.cause().debug@, ")"@)
    }

    /// Writes the internal rendering of the failure.
    pub fn debug_string(&self) -> (r: String)
        ensures
            r@ == self.debug_text(),
    {
        match self {
            LocalError::TemplateOpenFailed(cause) => enclose(
                "TemplateOpenFailed",
                "(",
                cause.debug.as_str(),
                ")",
            ),
            LocalError::MetadataOpenFailed(cause) => enclose(
                "MetadataOpenFailed",
                "(",
                cause.debug.as_str(),
                ")",
            ),
            LocalError::MetadataFormatInvalid(cause) => enclose(
                "MetadataFormatInvalid",
                "(",
                cause.debug.as_str(),
                ")",
            ),
        }
    }
}

impl From<LocalError> for ErrorResponse {
    /// Maps a failure of a local source: a bad-gateway status, the
    /// code of the variant, and the message of the wrapped cause.
    fn from(value: LocalError) -> (r: ErrorResponse)
        ensures
            r@ == value.response(),
    {
        let (code, cause) = match value {
            LocalError::TemplateOpenFailed(cause) => (ErrorCode::TemplateOpeningFailed, cause),
            LocalError::MetadataOpenFailed(cause) => (ErrorCode::MetadataOpeningFailed, cause),
            LocalError::MetadataFormatInvalid(cause) => (ErrorCode::MetadataInvalidFormat, cause),
        };
        let details = vec![cause.message];
        assert(texts(details@) =~= seq![cause.message@]);
        ErrorResponse::new(code, details)
    }
}

impl vstd::std_specs::convert::FromSpecImpl<LocalError> for ErrorResponse {
    open spec fn obeys_from_spec() -> bool {
        false
    }

    open spec fn from_spec(value: LocalError) -> ErrorResponse {
        arbitrary()
    }
}

impl HttpError {
    /// The published code of the failure.
    pub open spec fn code(&self) -> ErrorCode {
        match self {
            HttpError::TemplateLoadingFailed(_) => ErrorCode::TemplateLoadingFailed,
            HttpError::MetadataLoadingFailed(_) => ErrorCode::MetadataLoadingFailed,
            HttpError::MetadataUrlInvalid(_) => ErrorCode::UrlBuildingFailed,
            HttpError::RequestFailed(_) => ErrorCode::ExternalRequestFailed,
        }
    }

    /// The lower-layer failure that the variant wraps.
    pub open spec fn cause(&self) -> Cause {
        match self {
            HttpError::TemplateLoadingFailed(cause) => *cause,
            HttpError::MetadataLoadingFailed(cause) => *cause,
            HttpError::MetadataUrlInvalid(cause) => *cause,
            HttpError::RequestFailed(cause) => *cause,
        }
    }

    /// The name of the variant.
    pub open spec fn variant_name(&self) -> Seq<char> {
        match self {
            HttpError::TemplateLoadingFailed(_) => "TemplateLoadingFailed"@,
            HttpError::MetadataLoadingFailed(_) => "MetadataLoadingFailed"@,
            HttpError::MetadataUrlInvalid(_) => "MetadataUrlInvalid"@,
            HttpError::RequestFailed(_) => "RequestFailed"@,
        }
    }

    /// Whether `self` and `other` are the same variant, whatever they wrap.
    pub open spec fn same_variant(&self, other: &HttpError) -> bool {
        match (self, other) {
            (HttpError::TemplateLoadingFailed(_), HttpError::TemplateLoadingFailed(_)) => true,
            (HttpError::MetadataLoadingFailed(_), HttpError::MetadataLoadingFailed(_)) => true,
            (HttpError::MetadataUrlInvalid(_), HttpError::MetadataUrlInvalid(_)) => true,
            (HttpError::RequestFailed(_), HttpError::RequestFailed(_)) => true,
            _ => false,
        }
    }

    /// The record of the failure: its code with the message of the wrapped
    /// cause as the one detail.
    pub open spec fn response(&self) -> ResponseView {
        response_of(self.code(), seq![self.cause().message@])
    }

    /// The internal rendering of the failure: the name of the variant with
    /// the internal rendering of the wrapped cause in round brackets.
    pub open spec fn debug_text(&self) -> Seq<char> {
        enclosed(self.variant_name(), "("@, self.cause().debug@, ")"@)
    }

    /// Writes the internal rendering of the failure.
    pub fn debug_string(&self) -> (r: String)
        ensures
            r@ == self.debug_text(),
    {
        match self {
            HttpError::TemplateLoadingFailed(cause) => enclose(
                "TemplateLoadingFailed",
                "(",
                cause.debug.as_str(),
                ")",
            ),
            HttpError::MetadataLoadingFailed(cause) => enclose(
                "MetadataLoadingFailed",
                "(",
                cause.debug.as_str(),
                ")",
            ),
            HttpError::MetadataUrlInvalid(cause) => enclose(
                "MetadataUrlInvalid",
                "(",
                cause.debug.as_str(),
                ")",
            ),
            HttpError::RequestFailed(cause) => enclose(
                "RequestFailed",
                "(",
                cause.debug.as_str(),
                ")",
            ),
        }
    }
}

impl From<HttpError> for ErrorResponse {
    /// Maps a failure of a remote source: a bad-gateway status, the
    /// code of the variant, and the message of the wrapped cause.
    fn from(value: HttpError) -> (r: ErrorResponse)
        ensures
            r@ == value.response(),
    {
        let (code, cause) = match value {
            HttpError::TemplateLoadingFailed(cause) => (ErrorCode::TemplateLoadingFailed, cause),
            HttpError::MetadataLoadingFailed(cause) => (ErrorCode::MetadataLoadingFailed, cause),
            HttpError::MetadataUrlInvalid(cause) => (ErrorCode::UrlBuildingFailed, cause),
            HttpError::RequestFailed(cause) => (ErrorCode::ExternalRequestFailed, cause),
        };
        let details = vec![cause.message];
        assert(texts(details@) =~= seq![cause.message@]);
        ErrorResponse::new(code, details)
    }
}

impl vstd::std_specs::convert::FromSpecImpl<HttpError> for ErrorResponse {
    open spec fn obeys_from_spec() -> bool {
        false
    }

    open spec fn from_spec(value: HttpError) -> ErrorResponse {
        arbitrary()
    }
}

impl LoaderError {
    /// The internal renderings of the failures `nested`, in order.
    pub open spec fn debug_texts(nested: Seq<LoaderError>) -> Seq<Seq<char>>
        decreases nested, 1int,
    {
        Seq::new(
            nested.len(),
            |i: int|
                if 0 <= i < nested.len() {
                    nested[i].debug_text()
                } else {
                    Seq::empty()
                },
        )
    }

    /// The internal rendering of the failure: the name of the variant and, in
    /// round brackets, the rendering of what it carries. The failures of an
    /// aggregate stand in square brackets, in order, with a comma and a space
    /// between each two.
    pub open spec fn debug_text(&self) -> Seq<char>
        decreases *self, 0int,
    {
        match self {
            LoaderError::Multiple(nested) => enclosed(
                "Multiple"@,
                "(["@,
                joined(Self::debug_texts(nested@), ", "@),
                "])"@,
            ),
            LoaderError::Http(inner) => enclosed("Http"@, "("@, inner.debug_text(), ")"@),
            LoaderError::Local(inner) => enclosed("Local"@, "("@, inner.debug_text(), ")"@),
        }
    }

    /// Whether `self` and `other` are the same variant, and wrap the same
    /// variant where they wrap a failure of one source.
    pub open spec fn same_variant(&self, other: &LoaderError) -> bool {
        match (self, other) {
            (LoaderError::Multiple(_), LoaderError::Multiple(_)) => true,
            (LoaderError::Http(a), LoaderError::Http(b)) => a.same_variant(b),
            (LoaderError::Local(a), LoaderError::Local(b)) => a.same_variant(b),
            _ => false,
        }
    }

    /// The lower-layer failure that a failure of one source wraps; an
    /// aggregate wraps none of its own.
    pub open spec fn cause(&self) -> Option<Cause> {
        match self {
            LoaderError::Multiple(_) => None,
            LoaderError::Http(inner) => Some(inner.cause()),
            LoaderError::Local(inner) => Some(inner.cause()),
        }
    }

    /// The published code of the failure: that of the source which failed,
    /// or the aggregate's own.
    pub open spec fn code(&self) -> ErrorCode {
        match self {
            LoaderError::Multiple(_) => ErrorCode::Loading,
            LoaderError::Http(inner) => inner.code(),
            LoaderError::Local(inner) => inner.code(),
        }
    }

    /// The record of the failure. That of one source is the record of that
    /// source's failure, unchanged. An aggregate has its own status and code,
    /// and one detail for each nested failure, in order: its internal
    /// rendering.
    pub open spec fn response(&self) -> ResponseView {
        match self {
            LoaderError::Multiple(nested) => response_of(
                ErrorCode::Loading,
                Self::debug_texts(nested@),
            ),
            LoaderError::Http(inner) => inner.response(),
            LoaderError::Local(inner) => inner.response(),
        }
    }

    /// Writes the internal rendering of each of the failures `nested`.
    pub fn debug_strings(nested: &Vec<LoaderError>) -> (r: Vec<String>)
        ensures
            texts(r@) == Self::debug_texts(nested@),
        decreases nested@, 1int,
    {
        let mut r: Vec<String> = Vec::new();
        let mut i: usize = 0;
        while i < nested.len()
            invariant
                i <= nested.len(),
                r@.len() == i,
                forall|k: int| 0 <= k < i ==> (#[trigger] r@[k])@ == nested@[k].debug_text(),
            decreases nested.len() - i,
        {
            r.push(nested[i].debug_string());
            i += 1;
        }
        assert(texts(r@) =~= Self::debug_texts(nested@));
        r
    }

    /// Writes the internal rendering of the failure.
    pub fn debug_string(&self) -> (r: String)
        ensures
            r@ == self.debug_text(),
        decreases *self, 0int,
    {
        match self {
            LoaderError::Multiple(nested) => {
                let parts = Self::debug_strings(nested);
                enclose("Multiple", "([", join(&parts, ", ").as_str(), "])")
            },
            LoaderError::Http(inner) => enclose("Http", "(", inner.debug_string().as_str(), ")"),
            LoaderError::Local(inner) => enclose("Local", "(", inner.debug_string().as_str(), ")"),
        }
    }
}

impl From<LoaderError> for ErrorResponse {
    /// Maps a failure of loading. The failure of one source is
    /// mapped as that source's failure. An aggregate becomes one record
    /// with one detail for each nested failure, in the order given.
    fn from(value: LoaderError) -> (r: ErrorResponse)
        ensures
            r@ == value.response(),
    {
        match value {
            LoaderError::Multiple(nested) => ErrorResponse::new(
                ErrorCode::Loading,
                LoaderError::debug_strings(&nested),
            ),
            LoaderError::Http(inner) => ErrorResponse::from(inner),
            LoaderError::Local(inner) => ErrorResponse::from(inner),
        }
    }
}

impl vstd::std_specs::convert::FromSpecImpl<LoaderError> for ErrorResponse {
    open spec fn obeys_from_spec() -> bool {
        false
    }

    open spec fn from_spec(value: LoaderError) -> ErrorResponse {
        arbitrary()
    }
}

/// Two failures of a local source that are the same variant have the same
/// status, code and title, whatever they wrap.
pub proof fn lemma_local_same_variant(a: LocalError, b: LocalError)
    requires
        a.same_variant(&b),
    ensures
        a.response().status == b.response().status,
        a.response().code == b.response().code,
        a.response().title == b.response().title,
{
}

/// Two failures of a remote source that are the same variant have the same
/// status, code and title, whatever they wrap.
pub proof fn lemma_http_same_variant(a: HttpError, b: HttpError)
    requires
        a.same_variant(&b),
    ensures
        a.response().status == b.response().status,
        a.response().code == b.response().code,
        a.response().title == b.response().title,
{
}

/// Two failures of loading that are the same variant have the same status,
/// code and title, whatever they wrap. Status, code and title are those of
/// the failure's code.
pub proof fn lemma_loader_same_variant(a: LoaderError, b: LoaderError)
    requires
        a.same_variant(&b),
    ensures
        a.response().status == b.response().status,
        a.response().code == b.response().code,
        a.response().title == b.response().title,
        a.response() == response_of(a.code(), a.response().details),
{
}

/// The internal rendering of a failure of one source contains that of the
/// cause it wraps.
pub proof fn lemma_source_rendering_contains_cause(failure: LoaderError)
    ensures
        failure.cause() matches Some(cause) ==> contains(failure.debug_text(), cause.debug@),
{
    match failure {
        LoaderError::Http(inner) => {
            lemma_enclosed_contains(inner.variant_name(), "("@, inner.cause().debug@, ")"@);
            lemma_enclosed_contains("Http"@, "("@, inner.debug_text(), ")"@);
            lemma_contains_transitive(
                failure.debug_text(),
                inner.debug_text(),
                inner.cause().debug@,
            );
        },
        LoaderError::Local(inner) => {
            lemma_enclosed_contains(inner.variant_name(), "("@, inner.cause().debug@, ")"@);
            lemma_enclosed_contains("Local"@, "("@, inner.debug_text(), ")"@);
            lemma_contains_transitive(
                failure.debug_text(),
                inner.debug_text(),
                inner.cause().debug@,
            );
        },
        LoaderError::Multiple(_) => {},
    }
}

/// The internal rendering of an aggregate contains that of each failure
/// nested in it.
pub proof fn lemma_aggregate_rendering_contains_nested(nested: Vec<LoaderError>, i: int)
    requires
        0 <= i < nested@.len(),
    ensures
        contains(LoaderError::Multiple(nested).debug_text(), nested@[i].debug_text()),
{
    let parts = LoaderError::debug_texts(nested@);
    let inner = joined(parts, ", "@);
    lemma_joined_contains(parts, ", "@, i);
    lemma_enclosed_contains("Multiple"@, "(["@, inner, "])"@);
    lemma_contains_transitive(LoaderError::Multiple(nested).debug_text(), inner, parts[i]);
}

/// The record of an aggregate of `nested` failures has the aggregate's own
/// code and a client-error status, and exactly one detail for each nested
/// failure, in the order given: the internal rendering of that failure,
/// which for a failure of one source contains the rendering of its cause.
pub proof fn lemma_aggregate_details(nested: Vec<LoaderError>)
    ensures
        LoaderError::Multiple(nested).response().code == ErrorCode::Loading.text(),
        LoaderError::Multiple(nested).response().status == 400,
        LoaderError::Multiple(nested).response().details.len() == nested@.len(),
        forall|i: int|
            0 <= i < nested@.len() ==> LoaderError::Multiple(nested).response().details[i] == (
            #[trigger] nested@[i]).debug_text(),
        forall|i: int|
            0 <= i < nested@.len() ==> ((#[trigger] nested@[i]).cause() matches Some(cause)
                ==> contains(LoaderError::Multiple(nested).response().details[i], cause.debug@)),
{
    assert forall|i: int| 0 <= i < nested@.len() implies ((#[trigger] nested@[i]).cause() matches Some(
        cause,
    ) ==> contains(LoaderError::Multiple(nested).response().details[i], cause.debug@)) by {
        lemma_source_rendering_contains_cause(nested@[i]);
    }
}

} // verus!
