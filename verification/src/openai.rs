//! The OpenAI-backed adapter: language-code resolution, prompt construction,
//! the request plan handed to the chat-completion transport, extraction of
//! the first response choice, and classification of provider failures.

use vstd::prelude::*;
use vstd::string::StringExecFns;

use crate::llm_client::TranslatorErrors;
use crate::llm_client::TranslatorResult;
use crate::models::TranslateTask;

verus! {

/// System instruction sent with every translation request: literal,
/// terminology-preserving translation, no commentary, tuned for formal,
/// military and legal text.
pub const SYSTEM_PROMPT: &'static str = "You are a machine translation model specialized in military and legal texts. \n                                Translate with maximum accuracy, without interpretation or alteration of meaning. \n                                Preserve terminology, structure, numbering, formatting, and the formal tone of documents. \n                                Translate military terminology according to established professional usage.\n                                don't decipher the abbreviations.\n                                 Do not add comments, explanations, or summaries. \n                                 If a term is ambiguous, keep the original or use the most neutral equivalent. \n                                 By default, perform translation only.";

/// Generation cap on the provider's output, in tokens.
pub const MAX_TOKENS: u32 = 32000;

/// Configuration of the OpenAI-backed adapter, immutable after startup.
#[derive(Clone, Debug)]
pub struct OpenAIClientConfig {
    address: String,
    openai_api_key: String,
    model_name: String,
    use_proxy: bool,
    proxy_address: String,
}

impl OpenAIClientConfig {
    pub closed spec fn spec_address(&self) -> Seq<char> {
        self.address@
    }

    pub closed spec fn spec_openai_api_key(&self) -> Seq<char> {
        self.openai_api_key@
    }

    pub closed spec fn spec_model_name(&self) -> Seq<char> {
        self.model_name@
    }

    pub closed spec fn spec_use_proxy(&self) -> bool {
        self.use_proxy
    }

    pub closed spec fn spec_proxy_address(&self) -> Seq<char> {
        self.proxy_address@
    }

    pub fn new(
        address: String,
        openai_api_key: String,
        model_name: String,
        use_proxy: bool,
        proxy_address: String,
    ) -> (r: Self)
        ensures
            r.spec_address() == address@,
            r.spec_openai_api_key() == openai_api_key@,
            r.spec_model_name() == model_name@,
            r.spec_use_proxy() == use_proxy,
            r.spec_proxy_address() == proxy_address@,
    {
        OpenAIClientConfig { address, openai_api_key, model_name, use_proxy, proxy_address }
    }

    pub fn address(&self) -> (r: &String)
        ensures
            r@ == self.spec_address(),
    {
        &self.address
    }

    pub fn openai_api_key(&self) -> (r: &String)
        ensures
            r@ == self.spec_openai_api_key(),
    {
        &self.openai_api_key
    }

    pub fn model_name(&self) -> (r: &String)
        ensures
            r@ == self.spec_model_name(),
    {
        &self.model_name
    }

    pub fn use_proxy(&self) -> (r: bool)
        ensures
            r == self.spec_use_proxy(),
    {
        self.use_proxy
    }

    pub fn proxy_address(&self) -> (r: &String)
        ensures
            r@ == self.spec_proxy_address(),
    {
        &self.proxy_address
    }
}

/// The English language name, if any, behind an ISO 639-1 code. The lookup
/// is a pure function of the code: it reads fixed tables of the standard.
pub uninterp spec fn iso639_name(code: Seq<char>) -> Option<Seq<char>>;

/// Relies on isolang::Language::from_639_1 (which two-letter codes resolve)
/// and isolang::Language::to_name (the English name of the resolved
/// language); both read fixed tables, so the result depends on the code
/// alone. from_639_1 returns None whenever the code is not two bytes long.
#[verifier::external_body]
fn resolve_language_name(code: &str) -> (r: Option<String>)
    ensures
        r is Some <==> iso639_name(code@) is Some,
        r is Some ==> r->0@ == iso639_name(code@)->0,
        code@.len() != 2 ==> r is None,
{
    match isolang::Language::from_639_1(code) {
        Some(language) => Some(language.to_name().to_string()),
        None => None,
    }
}

/// The user message: the target and source language names and the literal
/// text, inside the fixed template.
pub open spec fn user_prompt_spec(
    source_name: Seq<char>,
    target_name: Seq<char>,
    text: Seq<char>,
) -> Seq<char> {
    "Translate the following segment into "@ + target_name
        + ", without additional explanation.\n        The "@ + source_name
        + " segment:\n        ```\n        "@ + text + "\n        ```"@
}

/// Builds the user message for resolved language names and the source text.
pub fn build_user_prompt(source_name: &str, target_name: &str, text: &str) -> (r: String)
    ensures
        r@ == user_prompt_spec(source_name@, target_name@, text@),
{
    let mut prompt = String::from_str("Translate the following segment into ");
    prompt.append(target_name);
    prompt.append(", without additional explanation.\n        The ");
    prompt.append(source_name);
    prompt.append(" segment:\n        ```\n        ");
    prompt.append(text);
    prompt.append("\n        ```");
    prompt
}

/// Everything the chat-completion transport needs for one translation call:
/// the configured model, the two messages, and the generation cap.
#[derive(Clone, Debug, PartialEq)]
pub struct ChatRequestPlan {
    pub model_name: String,
    pub system_prompt: String,
    pub user_prompt: String,
    pub max_tokens: u32,
}

/// Turns a task into the request plan. An ISO 639-1 code that resolves to no
/// language is rejected with `BadRequest`; the source code is checked first,
/// and a code that is not two bytes long never resolves.
pub fn prepare_translate_request(
    config: &OpenAIClientConfig,
    task: &TranslateTask,
) -> (r: TranslatorResult<ChatRequestPlan>)
    ensures
        task.spec_source_language().len() != 2 ==> iso639_name(
            task.spec_source_language(),
        ) is None,
        iso639_name(task.spec_source_language()) is None ==> (r matches Err(
            TranslatorErrors::BadRequest(m),
        ) && m@ == "unresolvable source language code"@),
        iso639_name(task.spec_source_language()) is Some && iso639_name(
            task.spec_target_language(),
        ) is None ==> (r matches Err(TranslatorErrors::BadRequest(m)) && m@
            == "unresolvable target language code"@),
        iso639_name(task.spec_source_language()) is Some && iso639_name(
            task.spec_target_language(),
        ) is Some ==> (r matches Ok(p) && p.model_name@ == config.spec_model_name()
            && p.system_prompt@ == SYSTEM_PROMPT@ && p.user_prompt@ == user_prompt_spec(
            iso639_name(task.spec_source_language())->0,
            iso639_name(task.spec_target_language())->0,
            task.spec_text(),
        ) && p.max_tokens == MAX_TOKENS),
{
    let source_name = match resolve_language_name(task.source_language().as_str()) {
        Some(name) => name,
        None => {
            return Err(
                TranslatorErrors::BadRequest(
                    String::from_str("unresolvable source language code"),
                ),
            );
        },
    };
    let target_name = match resolve_language_name(task.target_language().as_str()) {
        Some(name) => name,
        None => {
            return Err(
                TranslatorErrors::BadRequest(
                    String::from_str("unresolvable target language code"),
                ),
            );
        },
    };
    let user_prompt = build_user_prompt(
        source_name.as_str(),
        target_name.as_str(),
        task.text().as_str(),
    );
    Ok(
        ChatRequestPlan {
            model_name: config.model_name().clone(),
            system_prompt: String::from_str(SYSTEM_PROMPT),
            user_prompt,
            max_tokens: MAX_TOKENS,
        },
    )
}

/// Picks the translated text out of the provider's choice contents. An empty
/// choice list, or a first choice without content, is an invalid response.
pub fn extract_first_choice(choices: &Vec<Option<String>>) -> (r: TranslatorResult<String>)
    ensures
        choices@.len() == 0 ==> (r matches Err(TranslatorErrors::InvalidResponse(m)) && m@
            == "provider response holds no choices"@),
        choices@.len() > 0 && choices@[0] is None ==> (r matches Err(
            TranslatorErrors::InvalidResponse(m),
        ) && m@ == "provider response choice holds no content"@),
        choices@.len() > 0 && choices@[0] is Some ==> (r matches Ok(t) && t@ == choices@[0]->0@),
{
    if choices.len() == 0 {
        return Err(
            TranslatorErrors::InvalidResponse(
                String::from_str("provider response holds no choices"),
            ),
        );
    }
    match &choices[0] {
        Some(content) => Ok(content.clone()),
        None => Err(
            TranslatorErrors::InvalidResponse(
                String::from_str("provider response choice holds no content"),
            ),
        ),
    }
}

/// The provider error kind for a failed provider HTTP exchange.
pub open spec fn classify_status_spec(status: u16, detail: String) -> TranslatorErrors {
    if status == 400 {
        TranslatorErrors::BadRequest(detail)
    } else if status == 401 {
        TranslatorErrors::Unauthorized(detail)
    } else if status == 402 {
        TranslatorErrors::NoCredits(detail)
    } else if status == 403 {
        TranslatorErrors::ModelModerationError(detail)
    } else if status == 408 {
        TranslatorErrors::Timeout(detail)
    } else if status == 429 {
        TranslatorErrors::RateLimited(detail)
    } else if status == 503 {
        TranslatorErrors::ServiceUnavailable(detail)
    } else {
        TranslatorErrors::AnotherError(detail)
    }
}

/// Maps the HTTP status of a failed provider exchange onto the provider
/// error taxonomy; any status outside the table is a generic failure.
pub fn classify_provider_status(status: u16, detail: String) -> (r: TranslatorErrors)
    ensures
        r == classify_status_spec(status, detail),
{
    if status == 400 {
        TranslatorErrors::BadRequest(detail)
    } else if status == 401 {
        TranslatorErrors::Unauthorized(detail)
    } else if status == 402 {
        TranslatorErrors::NoCredits(detail)
    } else if status == 403 {
        TranslatorErrors::ModelModerationError(detail)
    } else if status == 408 {
        TranslatorErrors::Timeout(detail)
    } else if status == 429 {
        TranslatorErrors::RateLimited(detail)
    } else if status == 503 {
        TranslatorErrors::ServiceUnavailable(detail)
    } else {
        TranslatorErrors::AnotherError(detail)
    }
}

} // verus!
