use text_translator_rust::errors::ServerError;
use text_translator_rust::errors::Success;
use text_translator_rust::llm_client::WorkingMode;
use text_translator_rust::models::TranslateTask;
use text_translator_rust::models::DEFAULT_TASK_TEXT;
use text_translator_rust::router_models::TextTransaltorResponse;
use text_translator_rust::swagger::SwaggerExample;

#[test]
fn working_mode_selects_the_openai_provider() {
    let mode = WorkingMode::OPENAI;
    assert!(matches!(mode, WorkingMode::OPENAI));
}

#[test]
fn task_keeps_its_fields() {
    let task = TranslateTask::new(String::from("en"), String::from("de"), String::from("Hi"));
    assert_eq!(task.source_language(), "en");
    assert_eq!(task.target_language(), "de");
    assert_eq!(task.text(), "Hi");
}

#[test]
fn task_setters_replace_one_field_each() {
    let mut task = TranslateTask::new(String::from("en"), String::from("de"), String::from("Hi"));
    task.set_source_language(String::from("fr"));
    task.set_target_language(String::from("es"));
    task.set_text(String::from("Bonjour"));
    assert_eq!(task.source_language(), "fr");
    assert_eq!(task.target_language(), "es");
    assert_eq!(task.text(), "Bonjour");
}

#[test]
fn default_task_is_the_documentation_example() {
    let task = TranslateTask::default();
    assert_eq!(task.source_language(), "en");
    assert_eq!(task.target_language(), "ru");
    assert_eq!(task.text(), DEFAULT_TASK_TEXT);
    assert!(task.text().starts_with("This is my rifle."));
}

#[test]
fn task_display_string_shows_every_field() {
    let task = TranslateTask::new(String::from("en"), String::from("ru"), String::from("Hello"));
    let rendered = task.display_string();
    let expected = "TranslateTask:\n  \n            Source Language: \"en\"\n  \n            Target Language: \"ru\"\n\n            Text: \"Hello\"";
    assert_eq!(rendered, expected);
}

#[test]
fn response_keeps_its_text() {
    let response = TextTransaltorResponse::new(String::from("Привет"));
    assert_eq!(response.text(), "Привет");
}

#[test]
fn success_default_is_200_ok() {
    let success = Success::default();
    assert_eq!(success.status(), 200);
    assert_eq!(success.message(), "Ok");
}

#[test]
fn success_example_is_the_default() {
    let example = Success::example(Some("ignored"));
    assert_eq!(example.status(), 200);
    assert_eq!(example.message(), "Ok");
}

#[test]
fn server_error_example_without_message_is_service_unavailable() {
    let example = ServerError::example(None);
    assert_eq!(
        example,
        ServerError::ServiceUnavailable(String::from("Service unavailable"))
    );
}

#[test]
fn server_error_example_with_message_is_internal_error() {
    let example = ServerError::example(Some("boom"));
    assert_eq!(example, ServerError::InternalError(String::from("boom")));
}
