use mailify::cause::Cause;
use mailify::code::{ErrorCode, Origin};
use mailify::loader::{HttpError, LoaderError, LocalError};
use mailify::message::MessageError;
use mailify::record::{ErrorBody, ErrorResponse};
use mailify::render::RenderError;
use mailify::transport::TransportError;

const ALL_CODES: [ErrorCode; 31] = [
    ErrorCode::CannotParseFilename,
    ErrorCode::EmailMissingAt,
    ErrorCode::EmailMissingDomain,
    ErrorCode::EmailMissingLocalPart,
    ErrorCode::MessageIo,
    ErrorCode::MissingFrom,
    ErrorCode::MissingTo,
    ErrorCode::NonAsciiChars,
    ErrorCode::TooManyFrom,
    ErrorCode::SmtpTransport,
    ErrorCode::Interpolation,
    ErrorCode::Loading,
    ErrorCode::TemplateLoadingFailed,
    ErrorCode::MetadataLoadingFailed,
    ErrorCode::UrlBuildingFailed,
    ErrorCode::ExternalRequestFailed,
    ErrorCode::TemplateOpeningFailed,
    ErrorCode::MetadataOpeningFailed,
    ErrorCode::MetadataInvalidFormat,
    ErrorCode::TemplateFormat,
    ErrorCode::TemplateSizeExceeded,
    ErrorCode::TemplateMissingRoot,
    ErrorCode::TemplateUnexpectedToken,
    ErrorCode::TemplateIncludeLoading,
    ErrorCode::TemplateInvalidAttribute,
    ErrorCode::TemplateInvalidFormat,
    ErrorCode::TemplateMissingAttribute,
    ErrorCode::TemplateInvalidXml,
    ErrorCode::TemplateUnexpectedAttribute,
    ErrorCode::TemplateUnexpectedElement,
    ErrorCode::RenderingUnknownFragment,
];

#[test]
fn body_without_details_has_no_details_field() {
    let body = ErrorResponse::from(MessageError::EmailMissingAt).into_body();
    assert_eq!(
        body,
        ErrorBody {
            code: "invalid-email-address-missing-at",
            title: "unable to find at in email address",
            details: None,
        }
    );
}

#[test]
fn body_with_details_keeps_them_in_order() {
    let failure = LoaderError::Multiple(vec![
        LoaderError::Http(HttpError::RequestFailed(Cause::new("a", "source A failure text"))),
        LoaderError::Local(LocalError::TemplateOpenFailed(Cause::new("b", "source B failure text"))),
    ]);
    let response = ErrorResponse::from(failure);
    assert_eq!(response.status(), 400);
    let body = response.into_body();
    assert_eq!(body.code, "loading-error");
    assert_eq!(body.title, "something went wrong when loading template");
    assert_eq!(
        body.details,
        Some(vec![
            String::from("Http(RequestFailed(source A failure text))"),
            String::from("Local(TemplateOpenFailed(source B failure text))"),
        ])
    );
}

#[test]
fn body_of_an_empty_aggregate_has_no_details_field() {
    let body = ErrorResponse::from(LoaderError::Multiple(vec![])).into_body();
    assert_eq!(body.code, "loading-error");
    assert_eq!(body.details, None);
}

#[test]
fn body_with_one_detail_has_a_list_of_one() {
    let body = ErrorResponse::from(TransportError { cause: Cause::new("down", "Down") }).into_body();
    assert_eq!(body.details, Some(vec![String::from("down")]));
}

#[test]
fn new_response_carries_status_code_and_title_of_its_code() {
    for code in ALL_CODES {
        let response = ErrorResponse::new(code, vec![String::from("x"), String::from("y")]);
        assert_eq!(response.status(), code.status());
        assert_eq!(response.code(), code.as_str());
        assert_eq!(response.title(), code.title());
        assert_eq!(response.details(), &vec![String::from("x"), String::from("y")]);
    }
}

#[test]
fn code_texts_are_pairwise_distinct() {
    for (i, a) in ALL_CODES.iter().enumerate() {
        for (j, b) in ALL_CODES.iter().enumerate() {
            assert_eq!(a.as_str() == b.as_str(), i == j);
            assert_eq!(a == b, i == j);
        }
    }
}

#[test]
fn status_follows_the_origin_of_the_failure() {
    for code in ALL_CODES {
        match code.origin() {
            Origin::CallerInput => assert!(code.status() >= 400 && code.status() < 500),
            Origin::Downstream | Origin::Internal => {
                assert!(code.status() >= 500 && code.status() < 600)
            }
        }
    }
    assert_eq!(ErrorCode::MissingFrom.origin(), Origin::CallerInput);
    assert_eq!(ErrorCode::TemplateUnexpectedToken.origin(), Origin::CallerInput);
    assert_eq!(ErrorCode::SmtpTransport.origin(), Origin::Downstream);
    assert_eq!(ErrorCode::TemplateLoadingFailed.origin(), Origin::Downstream);
    assert_eq!(ErrorCode::TemplateOpeningFailed.origin(), Origin::Downstream);
    assert_eq!(ErrorCode::RenderingUnknownFragment.origin(), Origin::Internal);
}

#[test]
fn statuses_of_the_three_classes() {
    assert_eq!(ErrorCode::MissingFrom.status(), 400);
    assert_eq!(ErrorCode::Loading.status(), 400);
    assert_eq!(ErrorCode::Interpolation.status(), 400);
    assert_eq!(ErrorCode::TemplateInvalidXml.status(), 400);
    assert_eq!(ErrorCode::ExternalRequestFailed.status(), 502);
    assert_eq!(ErrorCode::MetadataInvalidFormat.status(), 502);
    assert_eq!(ErrorCode::SmtpTransport.status(), 500);
    assert_eq!(ErrorCode::TemplateIncludeLoading.status(), 500);
    assert_eq!(ErrorCode::RenderingUnknownFragment.status(), 500);
}

#[test]
fn transport_code_differs_from_every_caller_input_code() {
    let response = ErrorResponse::from(TransportError { cause: Cause::new("Connection error", "Connection") });
    assert_eq!(response.status(), 500);
    for code in ALL_CODES {
        if code.origin() == Origin::CallerInput {
            assert_ne!(response.code(), code.as_str());
        }
    }
}

#[test]
fn undefined_fragment_has_a_server_error_status_and_no_details() {
    let response = ErrorResponse::from(RenderError::UnknownFragment(String::from("header")));
    assert_eq!(response.status() / 100, 5);
    assert!(response.details().is_empty());
    assert_eq!(response.into_body().details, None);
}

#[test]
fn server_failure_gives_the_status_line_and_the_body() {
    let (status, body) = mailify::server::ServerError::Smtp(MessageError::EmailMissingAt).into_parts();
    assert_eq!(status, 400);
    assert_eq!(body.code, "invalid-email-address-missing-at");
    assert_eq!(body.title, "unable to find at in email address");
    assert_eq!(body.details, None);
    let failure = mailify::server::ServerError::SmtpTransport(TransportError {
        cause: Cause::new("Connection error: refused", "Error { kind: Connection }"),
    });
    let (status, body) = failure.into_parts();
    assert_eq!(status, 500);
    assert_eq!(body.code, "smtp-transport-error");
    assert_eq!(body.details, Some(vec![String::from("Connection error: refused")]));
}

#[test]
fn only_transport_failures_are_logged() {
    let failure = mailify::server::ServerError::SmtpTransport(TransportError {
        cause: Cause::new("Connection error: refused", "Error { kind: Connection }"),
    });
    assert_eq!(
        failure.log_line(),
        Some(String::from("smtp transport error: Error { kind: Connection }"))
    );
    assert_eq!(mailify::server::ServerError::Smtp(MessageError::MissingTo).log_line(), None);
    let failure = mailify::server::ServerError::Engine(mailify::engine::EngineError::Rendering(
        RenderError::UnknownFragment(String::from("x")),
    ));
    assert_eq!(failure.log_line(), None);
}
