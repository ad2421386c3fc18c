//! Provider-facing error taxonomy, the provider capability trait, and the
//! working-mode selector.

use vstd::prelude::*;

use crate::models::TranslateTask;

verus! {

/// Which provider backend the service runs against. A single variant today;
/// the enumeration leaves room for more without touching the HTTP surface.
#[derive(Clone, Debug)]
pub enum WorkingMode {
    OPENAI,
}

/// Errors raised by the provider adapter, before they are projected onto the
/// HTTP-facing taxonomy. Each variant carries a free-text detail string.
#[derive(Clone, Debug, PartialEq, Eq)]
pub enum TranslatorErrors {
    BadRequest(String),
    DeserializeError(String),
    IOError(String),
    RequestError(String),
    InvalidResponse(String),
    ModelModerationError(String),
    NoCredits(String),
    RateLimited(String),
    ServiceUnavailable(String),
    Timeout(String),
    Unauthorized(String),
    AnotherError(String),
}

pub type TranslatorResult<T> = Result<T, TranslatorErrors>;

/// Capability interface of a translation provider: turn a task into the
/// translated text, or report a provider error. Implementations decide the
/// outcome; callers state what holds of every outcome.
pub trait LLMClient {
    fn translate(&self, translate_task: TranslateTask) -> TranslatorResult<String>;
}

} // verus!
