use text_translator_rust::errors::ServerError;
use text_translator_rust::llm_client::TranslatorErrors;

fn detail() -> String {
    String::from("provider detail")
}

#[test]
fn mapping_table_statuses_are_total_and_fixed() {
    let cases: Vec<(TranslatorErrors, u16)> = vec![
        (TranslatorErrors::BadRequest(detail()), 400),
        (TranslatorErrors::DeserializeError(detail()), 502),
        (TranslatorErrors::IOError(detail()), 204),
        (TranslatorErrors::RequestError(detail()), 502),
        (TranslatorErrors::InvalidResponse(detail()), 204),
        (TranslatorErrors::NoCredits(detail()), 402),
        (TranslatorErrors::ModelModerationError(detail()), 403),
        (TranslatorErrors::RateLimited(detail()), 429),
        (TranslatorErrors::ServiceUnavailable(detail()), 503),
        (TranslatorErrors::Timeout(detail()), 408),
        (TranslatorErrors::Unauthorized(detail()), 401),
        (TranslatorErrors::AnotherError(detail()), 500),
    ];
    for (provider_error, expected_status) in cases {
        let mapped = ServerError::from(provider_error);
        let (_message, status) = mapped.status_code();
        assert_eq!(status, expected_status);
    }
}

#[test]
fn mapping_is_deterministic() {
    for _ in 0..2 {
        let first = ServerError::from(TranslatorErrors::Timeout(detail()));
        let second = ServerError::from(TranslatorErrors::Timeout(detail()));
        assert_eq!(first, second);
        assert_eq!(first.status_code(), second.status_code());
    }
}

#[test]
fn bad_request_detail_passes_through() {
    let mapped = ServerError::from(TranslatorErrors::BadRequest(String::from("code xq")));
    let (message, status) = mapped.status_code();
    assert_eq!(status, 400);
    assert_eq!(message, "code xq");
}

#[test]
fn mapped_messages_are_the_fixed_client_facing_texts() {
    let cases: Vec<(TranslatorErrors, &str)> = vec![
        (
            TranslatorErrors::DeserializeError(detail()),
            "No image on response of model. Try again.",
        ),
        (TranslatorErrors::IOError(detail()), "File saving or sending error."),
        (TranslatorErrors::RequestError(detail()), "Request Error"),
        (
            TranslatorErrors::InvalidResponse(detail()),
            "Invalid Response from generate API. See the logs",
        ),
        (
            TranslatorErrors::ModelModerationError(detail()),
            "Model API is on moderation.Try another model",
        ),
        (TranslatorErrors::NoCredits(detail()), "You have not credits on API"),
        (TranslatorErrors::RateLimited(detail()), "Too many requests for API"),
        (
            TranslatorErrors::ServiceUnavailable(detail()),
            "Model provider is unavailable",
        ),
        (TranslatorErrors::Timeout(detail()), "API request to model timeout"),
        (TranslatorErrors::Unauthorized(detail()), "Unauthorized to API"),
        (TranslatorErrors::AnotherError(detail()), "Internal server error"),
    ];
    for (provider_error, expected_message) in cases {
        let (message, _status) = ServerError::from(provider_error).status_code();
        assert_eq!(message, expected_message);
    }
}

#[test]
fn status_code_keeps_the_carried_message() {
    let cases: Vec<(ServerError, u16)> = vec![
        (ServerError::NotFound(String::from("m")), 404),
        (ServerError::ServiceUnavailable(String::from("m")), 503),
        (ServerError::Unauthorized(String::from("m")), 401),
        (ServerError::DeserializeError(String::from("m")), 502),
        (ServerError::NoCredits(String::from("m")), 402),
        (ServerError::ModelModerationError(String::from("m")), 403),
        (ServerError::RateLimited(String::from("m")), 429),
        (ServerError::InvalidResponse(String::from("m")), 204),
        (ServerError::IOError(String::from("m")), 204),
        (ServerError::Timeout(String::from("m")), 408),
        (ServerError::BadRequest(String::from("m")), 400),
        (ServerError::InternalError(String::from("m")), 500),
        (ServerError::SerdeError(String::from("m")), 422),
        (ServerError::RequestError(String::from("m")), 502),
    ];
    for (server_error, expected_status) in cases {
        let (message, status) = server_error.status_code();
        assert_eq!(message, "m");
        assert_eq!(status, expected_status);
    }
}
