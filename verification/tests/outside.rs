use mailify::engine::EngineError;
use mailify::message::MessageError;
use mailify::record::ErrorResponse;
use mailify::server::ServerError;

fn transport_failure() -> lettre::transport::smtp::Error {
    match "not an smtp reply".parse::<lettre::transport::smtp::response::Response>() {
        Ok(_) => panic!("the text is no SMTP reply"),
        Err(failure) => failure,
    }
}

fn io_failure() -> std::io::Error {
    std::io::Error::new(std::io::ErrorKind::NotFound, "attachment is gone")
}

#[test]
fn builder_failures_keep_their_variant() {
    let cases = [
        (lettre::error::Error::MissingFrom, "missing-from-in-message"),
        (lettre::error::Error::MissingTo, "missing-to-in-message"),
        (lettre::error::Error::TooManyFrom, "too-many-from-in-message"),
        (lettre::error::Error::EmailMissingAt, "invalid-email-address-missing-at"),
        (lettre::error::Error::EmailMissingLocalPart, "invalid-email-address-missing-local-part"),
        (lettre::error::Error::EmailMissingDomain, "invalid-email-address-missing-domain"),
        (lettre::error::Error::CannotParseFilename, "cannot-parse-filename"),
        (lettre::error::Error::NonAsciiChars, "non-ascii-chars-found"),
    ];
    for (failure, code) in cases {
        let response = ErrorResponse::from(failure);
        assert_eq!(response.status(), 400);
        assert_eq!(response.code(), code);
        assert!(response.details().is_empty());
    }
}

#[test]
fn builder_io_failure_surfaces_the_rendering_of_the_io_error() {
    let expected = format!("{:?}", io_failure());
    let response = ErrorResponse::from(lettre::error::Error::Io(io_failure()));
    assert_eq!(response.status(), 400);
    assert_eq!(response.code(), "io-error-with-message");
    assert_eq!(response.title(), "io error when building message");
    assert_eq!(response.details(), &vec![expected]);
    assert!(response.details()[0].contains("attachment is gone"));
}

#[test]
fn builder_failure_becomes_a_server_error_of_the_message_layer() {
    assert_eq!(
        ServerError::from(lettre::error::Error::MissingFrom),
        ServerError::Smtp(MessageError::MissingFrom)
    );
    match ServerError::from(lettre::error::Error::Io(io_failure())) {
        ServerError::Smtp(MessageError::Io(cause)) => {
            assert_eq!(cause.message, "attachment is gone");
            assert_eq!(cause.debug, format!("{:?}", io_failure()));
        }
        other => panic!("unexpected failure: {other:?}"),
    }
}

#[test]
fn builder_failure_becomes_an_engine_error_of_the_building_step() {
    assert_eq!(
        EngineError::from(lettre::error::Error::TooManyFrom),
        EngineError::Building(MessageError::TooManyFrom)
    );
}

#[test]
fn missing_message_builder_sender_is_reported_by_the_builder() {
    let failure = match lettre::Message::builder().body(String::from("hello")) {
        Ok(_) => panic!("a message needs a sender"),
        Err(failure) => failure,
    };
    let response = ErrorResponse::from(ServerError::from(failure));
    assert_eq!(response.status(), 400);
    assert_eq!(response.code(), "missing-from-in-message");
    assert_eq!(response.title(), "couldn't find from when building message");
    assert!(response.details().is_empty());
}

#[test]
fn transport_failure_surfaces_its_message_only() {
    let message = format!("{}", transport_failure());
    let response = ErrorResponse::from(transport_failure());
    assert_eq!(response.status(), 500);
    assert_eq!(response.code(), "smtp-transport-error");
    assert_eq!(response.title(), "unable to send message");
    assert_eq!(response.details(), &vec![message]);
    assert!(response.details()[0].starts_with("response error"));
}

#[test]
fn transport_failure_becomes_a_server_error_of_the_transport_layer() {
    let message = format!("{}", transport_failure());
    let debug = format!("{:?}", transport_failure());
    match ServerError::from(transport_failure()) {
        ServerError::SmtpTransport(failure) => {
            assert_eq!(failure.cause.message, message);
            assert_eq!(failure.cause.debug, debug);
            assert_ne!(failure.cause.message, failure.cause.debug);
        }
        other => panic!("unexpected failure: {other:?}"),
    }
}

#[test]
fn entry_points_for_builder_failures_agree() {
    let direct = ErrorResponse::from(lettre::error::Error::EmailMissingAt);
    let wrapped = ErrorResponse::from(ServerError::from(lettre::error::Error::EmailMissingAt));
    let built = ErrorResponse::from(EngineError::from(lettre::error::Error::EmailMissingAt));
    assert_eq!(direct, wrapped);
    assert_eq!(direct, built);
    assert_eq!(direct, ErrorResponse::from(MessageError::EmailMissingAt));
    assert_ne!(direct, ErrorResponse::from(lettre::error::Error::MissingFrom));
    let direct = ErrorResponse::from(lettre::error::Error::Io(io_failure()));
    let wrapped = ErrorResponse::from(ServerError::from(lettre::error::Error::Io(io_failure())));
    assert_eq!(direct, wrapped);
}

#[test]
fn entry_points_for_transport_failures_agree() {
    let direct = ErrorResponse::from(transport_failure());
    let wrapped = ErrorResponse::from(ServerError::from(transport_failure()));
    assert_eq!(direct, wrapped);
    assert!(!direct.details()[0].is_empty());
}
