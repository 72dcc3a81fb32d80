//! The values exchanged with the completion endpoint.

use vstd::prelude::*;

verus! {

/// A request for a completion: the prompt, the generation parameters, and
/// the mode the caller intends.
#[derive(Debug, Clone, PartialEq, Eq)]
pub struct CreateCompletionRequest {
    /// The model that is to complete the prompt.
    pub model: String,
    /// The text to complete.
    pub prompt: String,
    /// The most tokens to generate.
    pub max_tokens: Option<u16>,
    /// How many completions to generate.
    pub n: Option<u8>,
    /// The caller's intended mode: `Some(true)` to stream partial results,
    /// `Some(false)` for one aggregated answer, `None` to leave the choice
    /// to the entry point.
    pub stream: Option<bool>,
    /// An identifier of the end user.
    pub user: Option<String>,
}

/// One generated continuation.
#[derive(Debug, Clone, PartialEq, Eq)]
pub struct Choice {
    pub text: String,
    pub index: u32,
    pub finish_reason: Option<String>,
}

/// What a call has consumed, in tokens.
#[derive(Debug, Clone, Copy, PartialEq, Eq)]
pub struct Usage {
    pub prompt_tokens: u32,
    pub completion_tokens: u32,
    pub total_tokens: u32,
}

/// A completion: the whole answer of a blocking call, or one partial result
/// of a streamed one.
#[derive(Debug, Clone, PartialEq, Eq)]
pub struct CreateCompletionResponse {
    pub id: String,
    pub object: String,
    pub created: u32,
    pub model: String,
    pub choices: Vec<Choice>,
    pub usage: Option<Usage>,
}

} // verus!
