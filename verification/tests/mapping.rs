use mailify::cause::Cause;
use mailify::engine::EngineError;
use mailify::loader::{HttpError, LoaderError, LocalError};
use mailify::message::MessageError;
use mailify::parser::ParserError;
use mailify::record::ErrorResponse;
use mailify::render::RenderError;
use mailify::server::ServerError;
use mailify::span::Span;
use mailify::transport::TransportError;

fn cause(message: &str) -> Cause {
    Cause::new(message, &format!("Inner({message:?})"))
}

fn span(start: usize, end: usize) -> Span {
    match Span::new(start, end) {
        Some(span) => span,
        None => panic!("the start lies behind the end"),
    }
}

fn check(response: ErrorResponse, status: u16, code: &str, title: &str, details: &[&str]) {
    assert_eq!(response.status(), status);
    assert_eq!(response.code(), code);
    assert_eq!(response.title(), title);
    let found: Vec<&str> = response.details().iter().map(|d| d.as_str()).collect();
    assert_eq!(found, details);
}

#[test]
fn message_failures_without_payload_are_bad_requests_without_details() {
    check(
        ErrorResponse::from(MessageError::CannotParseFilename),
        400,
        "cannot-parse-filename",
        "unable to parse attachment filename",
        &[],
    );
    check(
        ErrorResponse::from(MessageError::EmailMissingAt),
        400,
        "invalid-email-address-missing-at",
        "unable to find at in email address",
        &[],
    );
    check(
        ErrorResponse::from(MessageError::EmailMissingDomain),
        400,
        "invalid-email-address-missing-domain",
        "unable to find domain in email address",
        &[],
    );
    check(
        ErrorResponse::from(MessageError::EmailMissingLocalPart),
        400,
        "invalid-email-address-missing-local-part",
        "unable to find local part in email address",
        &[],
    );
    check(
        ErrorResponse::from(MessageError::MissingFrom),
        400,
        "missing-from-in-message",
        "couldn't find from when building message",
        &[],
    );
    check(
        ErrorResponse::from(MessageError::MissingTo),
        400,
        "missing-to-in-message",
        "couldn't find to when building message",
        &[],
    );
    check(
        ErrorResponse::from(MessageError::NonAsciiChars),
        400,
        "non-ascii-chars-found",
        "couldn't decode strings when building email",
        &[],
    );
    check(
        ErrorResponse::from(MessageError::TooManyFrom),
        400,
        "too-many-from-in-message",
        "couldn't define a single from for message",
        &[],
    );
}

#[test]
fn message_io_failure_surfaces_the_rendering_of_its_cause() {
    check(
        ErrorResponse::from(MessageError::Io(Cause::new("disk full", "Os { code: 28 }"))),
        400,
        "io-error-with-message",
        "io error when building message",
        &["Os { code: 28 }"],
    );
}

#[test]
fn transport_failure_is_an_internal_server_error_with_its_message() {
    let failure = TransportError { cause: Cause::new("Connection error: refused", "Kind(Connection)") };
    check(
        ErrorResponse::from(failure),
        500,
        "smtp-transport-error",
        "unable to send message",
        &["Connection error: refused"],
    );
}

#[test]
fn interpolation_failure_surfaces_the_message_of_its_cause() {
    check(
        ErrorResponse::from(EngineError::Interpolation(Cause::new("missing value `name`", "Missing(\"name\")"))),
        400,
        "interpolation-error",
        "something went wrong when interpolating values in template",
        &["missing value `name`"],
    );
}

#[test]
fn remote_source_failures_are_bad_gateways() {
    check(
        ErrorResponse::from(HttpError::TemplateLoadingFailed(cause("status 404"))),
        502,
        "template-loading-failed",
        "unable to load template file",
        &["status 404"],
    );
    check(
        ErrorResponse::from(HttpError::MetadataLoadingFailed(cause("status 500"))),
        502,
        "metadata-loading-failed",
        "unable to load metadata file",
        &["status 500"],
    );
    check(
        ErrorResponse::from(HttpError::MetadataUrlInvalid(cause("relative URL without a base"))),
        502,
        "url-building-failed",
        "unable to build url",
        &["relative URL without a base"],
    );
    check(
        ErrorResponse::from(HttpError::RequestFailed(cause("connection reset"))),
        502,
        "external-request-failed",
        "unable to request external resource",
        &["connection reset"],
    );
}

#[test]
fn local_source_failures_are_bad_gateways() {
    check(
        ErrorResponse::from(LocalError::TemplateOpenFailed(cause("No such file or directory"))),
        502,
        "template-opening-failed",
        "unable to open template",
        &["No such file or directory"],
    );
    check(
        ErrorResponse::from(LocalError::MetadataOpenFailed(cause("Permission denied"))),
        502,
        "metadata-opening-failed",
        "unable to open metadata",
        &["Permission denied"],
    );
    check(
        ErrorResponse::from(LocalError::MetadataFormatInvalid(cause("expected value at line 1"))),
        502,
        "metadata-invalid-format",
        "unable to decode metadata",
        &["expected value at line 1"],
    );
}

#[test]
fn loader_failure_of_one_source_is_mapped_as_that_source() {
    let wrapped = ErrorResponse::from(LoaderError::Http(HttpError::RequestFailed(cause("timeout"))));
    let direct = ErrorResponse::from(HttpError::RequestFailed(cause("timeout")));
    assert_eq!(wrapped, direct);
    let wrapped = ErrorResponse::from(LoaderError::Local(LocalError::MetadataOpenFailed(cause("gone"))));
    let direct = ErrorResponse::from(LocalError::MetadataOpenFailed(cause("gone")));
    assert_eq!(wrapped, direct);
}

#[test]
fn aggregate_loading_failure_concatenates_its_causes_in_order() {
    let failure = LoaderError::Multiple(vec![
        LoaderError::Local(LocalError::TemplateOpenFailed(Cause::new("not found", "NotFound"))),
        LoaderError::Http(HttpError::RequestFailed(Cause::new("timed out", "Timeout(30)"))),
    ]);
    check(
        ErrorResponse::from(failure),
        400,
        "loading-error",
        "something went wrong when loading template",
        &["Local(TemplateOpenFailed(NotFound))", "Http(RequestFailed(Timeout(30)))"],
    );
}

#[test]
fn aggregate_loading_failure_has_one_detail_for_each_cause() {
    let renderings = ["A", "B", "C", "D", "E"];
    for count in 0..=renderings.len() {
        let nested: Vec<LoaderError> = renderings[..count]
            .iter()
            .map(|r| LoaderError::Http(HttpError::TemplateLoadingFailed(Cause::new("m", r))))
            .collect();
        let response = ErrorResponse::from(LoaderError::Multiple(nested));
        assert_eq!(response.status(), 400);
        assert_eq!(response.code(), "loading-error");
        assert_eq!(response.details().len(), count);
        for (detail, rendering) in response.details().iter().zip(renderings.iter()) {
            assert_eq!(detail, &format!("Http(TemplateLoadingFailed({rendering}))"));
            assert!(detail.contains(rendering));
        }
    }
}

#[test]
fn aggregate_nested_in_an_aggregate_is_rendered_in_square_brackets() {
    let inner = LoaderError::Multiple(vec![
        LoaderError::Local(LocalError::MetadataOpenFailed(Cause::new("x", "X"))),
        LoaderError::Local(LocalError::MetadataFormatInvalid(Cause::new("y", "Y"))),
    ]);
    let empty = LoaderError::Multiple(vec![]);
    assert_eq!(inner.debug_string(), "Multiple([Local(MetadataOpenFailed(X)), Local(MetadataFormatInvalid(Y))])");
    assert_eq!(empty.debug_string(), "Multiple([])");
    let failure = LoaderError::Multiple(vec![inner, empty]);
    check(
        ErrorResponse::from(failure),
        400,
        "loading-error",
        "something went wrong when loading template",
        &[
            "Multiple([Local(MetadataOpenFailed(X)), Local(MetadataFormatInvalid(Y))])",
            "Multiple([])",
        ],
    );
}

#[test]
fn parser_failures_without_position_have_no_details() {
    check(
        ErrorResponse::from(ParserError::EndOfStream),
        400,
        "template-format-error",
        "unable to decode template, reached the end early",
        &[],
    );
    check(
        ErrorResponse::from(ParserError::SizeLimit),
        400,
        "template-size-exceeded",
        "unable to decode template, reached size limit",
        &[],
    );
    check(
        ErrorResponse::from(ParserError::NoRootNode),
        400,
        "template-missing-root",
        "unable to decode template, no root component",
        &[],
    );
}

#[test]
fn parser_failure_of_an_included_template_is_a_server_error_without_details() {
    check(
        ErrorResponse::from(ParserError::IncludeLoaderError(cause("not found"))),
        500,
        "template-include-loading-error",
        "unable to load included template",
        &[],
    );
}

#[test]
fn parser_failures_with_position_render_it() {
    check(
        ErrorResponse::from(ParserError::UnexpectedToken(span(4, 9))),
        400,
        "template-unexpected-token",
        "unable to decode template, unexpected token",
        &["Unexpected token at position 4:9"],
    );
    check(
        ErrorResponse::from(ParserError::InvalidAttribute(span(0, 0))),
        400,
        "template-invalid-attribute",
        "unable to decode template, invalid attribute",
        &["Invalid attribute at position 0:0"],
    );
    check(
        ErrorResponse::from(ParserError::InvalidFormat(span(10, 120))),
        400,
        "template-invalid-format",
        "unable to decode template, invalid format",
        &["Invalid format at position 10:120"],
    );
    check(
        ErrorResponse::from(ParserError::UnexpectedAttribute(span(99, 100))),
        400,
        "template-unexpected-attribute",
        "unable to decode template, unexpected attribute",
        &["Unexpected attribute at position 99:100"],
    );
    check(
        ErrorResponse::from(ParserError::UnexpectedElement(span(1234, 56789))),
        400,
        "template-unexpected-element",
        "unable to decode template, unexpected element",
        &["Unexpected element at position 1234:56789"],
    );
}

#[test]
fn span_from_4_to_9_renders_as_4_colon_9() {
    let response = ErrorResponse::from(ParserError::UnexpectedElement(span(4, 9)));
    assert_eq!(response.details().len(), 1);
    assert!(response.details()[0].contains("4:9"));
    assert!(response.details()[0].ends_with(" at position 4:9"));
}

#[test]
fn missing_attribute_quotes_the_name() {
    check(
        ErrorResponse::from(ParserError::MissingAttribute(String::from("href"), span(4, 9))),
        400,
        "template-missing-attribute",
        "unable to decode template, missing attribute",
        &["Missing attribute \"href\" at position 4:9"],
    );
    check(
        ErrorResponse::from(ParserError::MissingAttribute(String::from("a\"b\n"), span(1, 2))),
        400,
        "template-missing-attribute",
        "unable to decode template, missing attribute",
        &["Missing attribute \"a\\\"b\\n\" at position 1:2"],
    );
}

#[test]
fn malformed_xml_surfaces_the_report_of_the_reader() {
    check(
        ErrorResponse::from(ParserError::ParserError(Cause::new("bad", "InvalidName(TextPos { row: 1, col: 2 })"))),
        400,
        "template-invalid-xml",
        "unable to decode template, invalid xml",
        &["Parser failed: InvalidName(TextPos { row: 1, col: 2 })"],
    );
}

#[test]
fn unknown_fragment_is_an_internal_error_without_details() {
    let response = ErrorResponse::from(RenderError::UnknownFragment(String::from("footer")));
    assert!(response.status() >= 500 && response.status() < 600);
    check(response, 500, "rendering-unknown-fragment", "unknown fragment", &[]);
}

#[test]
fn engine_failures_are_mapped_by_the_layer_that_failed() {
    assert_eq!(
        ErrorResponse::from(EngineError::Building(MessageError::MissingTo)),
        ErrorResponse::from(MessageError::MissingTo)
    );
    assert_eq!(
        ErrorResponse::from(EngineError::Loading(LoaderError::Local(LocalError::TemplateOpenFailed(cause("a"))))),
        ErrorResponse::from(LocalError::TemplateOpenFailed(cause("a")))
    );
    assert_eq!(
        ErrorResponse::from(EngineError::Parsing(ParserError::InvalidFormat(span(2, 3)))),
        ErrorResponse::from(ParserError::InvalidFormat(span(2, 3)))
    );
    assert_eq!(
        ErrorResponse::from(EngineError::Rendering(RenderError::UnknownFragment(String::from("x")))),
        ErrorResponse::from(RenderError::UnknownFragment(String::from("y")))
    );
}

#[test]
fn server_failures_are_mapped_by_the_layer_that_failed() {
    assert_eq!(
        ErrorResponse::from(ServerError::Engine(EngineError::Parsing(ParserError::NoRootNode))),
        ErrorResponse::from(ParserError::NoRootNode)
    );
    assert_eq!(
        ErrorResponse::from(ServerError::Smtp(MessageError::TooManyFrom)),
        ErrorResponse::from(MessageError::TooManyFrom)
    );
    assert_eq!(
        ErrorResponse::from(ServerError::SmtpTransport(TransportError { cause: cause("down") })),
        ErrorResponse::from(TransportError { cause: cause("down") })
    );
}

#[test]
fn server_error_wraps_the_failure_of_each_layer() {
    assert_eq!(
        ServerError::from(EngineError::Rendering(RenderError::UnknownFragment(String::from("f")))),
        ServerError::Engine(EngineError::Rendering(RenderError::UnknownFragment(String::from("f"))))
    );
    assert_eq!(ServerError::from(MessageError::MissingFrom), ServerError::Smtp(MessageError::MissingFrom));
    assert_eq!(
        ServerError::from(TransportError { cause: cause("down") }),
        ServerError::SmtpTransport(TransportError { cause: cause("down") })
    );
}

#[test]
fn same_variant_gives_the_same_status_code_and_title() {
    let a = ErrorResponse::from(ServerError::Engine(EngineError::Parsing(ParserError::UnexpectedToken(span(1, 2)))));
    let b = ErrorResponse::from(ServerError::Engine(EngineError::Parsing(ParserError::UnexpectedToken(span(30, 40)))));
    assert_eq!((a.status(), a.code(), a.title()), (b.status(), b.code(), b.title()));
    assert_ne!(a.details(), b.details());
    let a = ErrorResponse::from(HttpError::RequestFailed(cause("one")));
    let b = ErrorResponse::from(HttpError::RequestFailed(cause("two")));
    assert_eq!((a.status(), a.code(), a.title()), (b.status(), b.code(), b.title()));
    let again = ErrorResponse::from(HttpError::RequestFailed(cause("one")));
    assert_eq!(a, again);
}

#[test]
fn missing_sender_address_is_a_bad_request() {
    let response = ErrorResponse::from(ServerError::Smtp(MessageError::MissingFrom));
    assert_eq!(response.status(), 400);
    assert_eq!(response.code(), "missing-from-in-message");
}
