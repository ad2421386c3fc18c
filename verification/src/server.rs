//! Shared application state and the translation endpoint's decision core.
//!
//! The asynchronous HTTP shell performs the provider exchange; everything
//! the endpoint decides — which response a provider outcome becomes — is
//! here, as a function of that outcome.

use std::sync::Arc;

use vstd::prelude::*;

use crate::errors::is_transport_of;
use crate::errors::ServerError;
use crate::errors::ServerResult;
use crate::llm_client::LLMClient;
use crate::llm_client::TranslatorResult;
use crate::router_models::TextTransaltorRequest;
use crate::router_models::TextTransaltorResponse;

verus! {

/// State shared by all requests for the process lifetime: the provider
/// client handle, immutable after startup.
pub struct AppState<R: LLMClient> {
    llm_client: Arc<R>,
}

impl<R: LLMClient> AppState<R> {
    pub closed spec fn spec_llm_client(&self) -> Arc<R> {
        self.llm_client
    }

    pub fn new(llm_client: Arc<R>) -> (r: Self)
        ensures
            r.spec_llm_client() == llm_client,
    {
        AppState { llm_client }
    }

    pub fn llm_client(&self) -> (r: &Arc<R>)
        ensures
            *r == self.spec_llm_client(),
    {
        &self.llm_client
    }
}

/// The one response each provider outcome becomes: the translated text with
/// status 200, or the provider error projected onto the transport taxonomy.
pub open spec fn routes_to(
    outcome: TranslatorResult<String>,
    r: ServerResult<TextTransaltorResponse>,
) -> bool {
    match outcome {
        Ok(text) => r matches Ok(resp) && resp.spec_text() == text@,
        Err(err) => r matches Err(server_err) && is_transport_of(err, server_err),
    }
}

/// The HTTP status a response is sent with.
pub open spec fn response_status_spec(r: ServerResult<TextTransaltorResponse>) -> u16 {
    match r {
        Ok(_) => 200,
        Err(err) => err.spec_status(),
    }
}

/// The payload of the response body: the translated text on success, the
/// error message otherwise.
pub open spec fn response_body_spec(r: ServerResult<TextTransaltorResponse>) -> Seq<char> {
    match r {
        Ok(resp) => resp.spec_text(),
        Err(err) => err.spec_message(),
    }
}

/// Turns a provider outcome into the endpoint's response.
pub fn route_translate_outcome(outcome: TranslatorResult<String>) -> (r: ServerResult<
    TextTransaltorResponse,
>)
    ensures
        routes_to(outcome, r),
{
    match outcome {
        Ok(text) => Ok(TextTransaltorResponse::new(text)),
        Err(err) => Err(ServerError::from(err)),
    }
}

/// The translation endpoint's core: hands the task to the provider client
/// and renders whatever comes back. Every error it returns is the transport
/// projection of some provider error.
pub fn translate_text<R: LLMClient>(
    state: &AppState<R>,
    transalte_body: TextTransaltorRequest,
) -> (r: ServerResult<TextTransaltorResponse>)
    ensures
        exists|outcome: TranslatorResult<String>| #[trigger] routes_to(outcome, r),
{
    let task = transalte_body.translate_task().clone();
    let outcome = state.llm_client().translate(task);
    let ghost witness = outcome;
    let response = route_translate_outcome(outcome);
    proof {
        assert(routes_to(witness, response));
    }
    response
}

} // verus!
