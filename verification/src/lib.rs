//! Core of a single-endpoint translation service that delegates to a
//! chat-completion provider: the task and response models, the prompt
//! construction, the extraction of the provider's answer, and the total
//! mapping from provider failures to HTTP-facing errors, all with verified
//! contracts. The asynchronous HTTP and provider plumbing lives outside
//! this crate and only moves values between the network and these
//! functions.

pub mod errors;
pub mod laws;
pub mod llm_client;
pub mod models;
pub mod openai;
pub mod router_models;
pub mod server;
pub mod swagger;
