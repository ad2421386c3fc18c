//! Library-wide laws, each stated once as a public proof function.

use vstd::prelude::*;

use crate::errors::is_transport_of;
use crate::errors::transport_status_spec;
use crate::errors::ServerError;
use crate::errors::ServerResult;
use crate::llm_client::TranslatorErrors;
use crate::llm_client::TranslatorResult;
use crate::router_models::TextTransaltorResponse;
use crate::server::response_body_spec;
use crate::server::response_status_spec;
use crate::server::routes_to;

verus! {

/// The provider-to-transport error mapping is deterministic: any two
/// transport projections of one provider error agree on the HTTP status —
/// the one status of the table — and on the client-facing message. Together
/// with `ServerError::from`, which returns a projection for every provider
/// error, the mapping is total.
pub proof fn lemma_error_mapping_deterministic(
    err: TranslatorErrors,
    r1: ServerError,
    r2: ServerError,
)
    requires
        is_transport_of(err, r1),
        is_transport_of(err, r2),
    ensures
        r1.spec_status() == transport_status_spec(err),
        r2.spec_status() == r1.spec_status(),
        r2.spec_message() == r1.spec_message(),
{
}

/// Identical provider outcomes render identical responses: the status and
/// the body payload are functions of the outcome alone, so repeating a
/// request against a provider that returns the same outcome yields the
/// same response.
pub proof fn lemma_identical_outcomes_identical_responses(
    outcome: TranslatorResult<String>,
    r1: ServerResult<TextTransaltorResponse>,
    r2: ServerResult<TextTransaltorResponse>,
)
    requires
        routes_to(outcome, r1),
        routes_to(outcome, r2),
    ensures
        response_status_spec(r1) == response_status_spec(r2),
        response_body_spec(r1) == response_body_spec(r2),
{
    if let Err(err) = outcome {
        let (e1, e2) = (r1->Err_0, r2->Err_0);
        lemma_error_mapping_deterministic(err, e1, e2);
    }
}

} // verus!
