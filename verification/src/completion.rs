//! The completion calls: which entry point accepts which request, what is
//! then sent where, and how the answer of a blocking call is judged.

use crate::client::Client;
use crate::error::{text_view, ErrorView, OpenAIError};
use crate::text::str_eq;
use crate::types::{CreateCompletionRequest, CreateCompletionResponse};
use vstd::prelude::*;

verus! {

/// Whether the blocking entry point accepts a request with this mode flag:
/// it refuses only a caller who declared the intent to stream.
pub open spec fn blocking_accepts(stream: Option<bool>) -> bool {
    stream != Some(true)
}

/// Whether the streaming entry point accepts a request with this mode flag:
/// it refuses only a caller who declared the intent not to stream.
pub open spec fn streaming_accepts(stream: Option<bool>) -> bool {
    stream != Some(false)
}

/// Every request has an entry point. One that leaves the mode open is
/// accepted by both; one that declares a mode is accepted by the entry
/// point of that mode and refused by the other.
pub proof fn lemma_entry_points_cover(stream: Option<bool>)
    ensures
        blocking_accepts(stream) || streaming_accepts(stream),
        stream is None ==> blocking_accepts(stream) && streaming_accepts(stream),
        stream == Some(true) ==> streaming_accepts(stream) && !blocking_accepts(stream),
        stream == Some(false) ==> blocking_accepts(stream) && !streaming_accepts(stream),
{
}

/// What the blocking entry point tells a caller whose request asks to stream.
pub open spec fn use_create_stream() -> Seq<char> {
    "When stream is true, use Completion::create_stream"@
}

/// What the streaming entry point tells a caller whose request asks not to
/// stream.
pub open spec fn use_create() -> Seq<char> {
    "When stream is false, use Completion::create"@
}

/// A call that its entry point has accepted: the request as it goes out,
/// and the path it is to be posted to. Nothing has been sent yet; a call
/// that was refused yields no `Submission`, so there is nothing to send
/// for it.
#[derive(Debug, Clone, PartialEq, Eq)]
pub struct Submission {
    /// The path to post to, relative to the transport's base URL.
    pub path: String,
    /// The body to post.
    pub request: CreateCompletionRequest,
}

/// Given a prompt, the model will return one or more predicted
/// completions, and can also return the probabilities of alternative
/// tokens at each position.
pub struct Completions<'c, T> {
    client: &'c Client<T>,
}

impl<'c, T> Completions<'c, T> {
    /// The client that this group of calls belongs to.
    pub closed spec fn spec_client(&self) -> &'c Client<T> {
        self.client
    }

    /// The completion calls of `client`.
    pub fn new(client: &'c Client<T>) -> (group: Self)
        ensures
            group.spec_client() == client,
    {
        Self { client }
    }

    /// The client that this group of calls belongs to.
    #[verifier::when_used_as_spec(spec_client)]
    pub fn client(&self) -> (client: &'c Client<T>)
        ensures
            client == self.spec_client(),
    {
        self.client
    }

    /// Prepares a blocking completion call for the provided prompt and
    /// parameters.
    ///
    /// A request that asks to stream is refused: its caller must use
    /// [`Completions::create_stream`]. Every other request goes out as it
    /// is, to the client's path for blocking calls.
    pub fn create(&self, request: CreateCompletionRequest) -> (outcome: Result<
        Submission,
        OpenAIError,
    >)
        ensures
            outcome is Ok <==> blocking_accepts(request.stream),
            outcome matches Ok(submission) ==> {
                &&& submission.path@ == self.client().completion_route()
                &&& submission.request == request
            },
            outcome matches Err(error) ==> error@ == ErrorView::InvalidArgument(
                use_create_stream(),
            ),
    {
        match request.stream {
            Some(true) => Err(
                OpenAIError::InvalidArgument(
                    "When stream is true, use Completion::create_stream".to_owned(),
                ),
            ),
            _ => Ok(Submission { path: self.client.completion_path().to_owned(), request }),
        }
    }

    /// Prepares a streamed completion call for the provided prompt and
    /// parameters.
    ///
    /// A request that asks not to stream is refused: its caller must use
    /// [`Completions::create`]. Every other request goes out with its mode
    /// flag set to `Some(true)`, whatever the caller left there, and is
    /// otherwise unchanged; it goes to the client's path for streamed calls.
    /// The answer is a sequence of data-only server-sent events, ended by a
    /// `[DONE]` frame, which a
    /// [`CompletionResponseStream`](crate::stream::CompletionResponseStream)
    /// turns into partial results.
    pub fn create_stream(&self, request: CreateCompletionRequest) -> (outcome: Result<
        Submission,
        OpenAIError,
    >)
        ensures
            outcome is Ok <==> streaming_accepts(request.stream),
            outcome matches Ok(submission) ==> {
                &&& submission.path@ == self.client().stream_route()
                &&& submission.request == (CreateCompletionRequest {
                    stream: Some(true),
                    ..request
                })
            },
            outcome matches Err(error) ==> error@ == ErrorView::InvalidArgument(use_create()),
    {
        match request.stream {
            Some(false) => Err(
                OpenAIError::InvalidArgument(
                    "When stream is false, use Completion::create".to_owned(),
                ),
            ),
            _ => {
                let mut request = request;
                request.stream = Some(true);
                Ok(Submission { path: self.client.stream_path().to_owned(), request })
            },
        }
    }
}

/// The status code by which an answer reports success.
pub open spec fn success_status() -> Seq<char> {
    "000000"@
}

/// The answer of a blocking completion call: the completion wrapped with a
/// status of the application, which is independent of the HTTP status.
///
/// An answer that arrived with HTTP 200 may still report a failure, so a
/// caller must look at `status`, or let [`Self::into_result`] do so, before
/// relying on `detail`.
#[derive(Debug, Clone, PartialEq, Eq)]
pub struct NECreateCompletionResponse {
    /// The status code of the answer; `000000` means success.
    pub status: String,
    /// A description of the status, typically present on failure.
    pub desc: Option<String>,
    /// The completion itself, absent on failure.
    pub detail: Option<CreateCompletionResponse>,
}

impl NECreateCompletionResponse {
    /// The status is the success code.
    pub open spec fn reports_success(&self) -> bool {
        self.status@ == success_status()
    }

    /// What a conforming service sends: the completion is there if and only
    /// if the status is the success code.
    pub open spec fn well_formed(&self) -> bool {
        self.detail is Some <==> self.reports_success()
    }

    /// The completion can be taken out: the status is the success code and
    /// the completion is there.
    pub open spec fn succeeded(&self) -> bool {
        self.reports_success() && self.detail is Some
    }

    /// The outcome of a blocking call whose body the decoder has been
    /// through: the answer, or an [`OpenAIError::DecodeError`] with the
    /// decoder's complaint, which fails the whole call.
    pub fn decoded(outcome: Result<NECreateCompletionResponse, String>) -> (answer: Result<
        NECreateCompletionResponse,
        OpenAIError,
    >)
        ensures
            answer == match outcome {
                Ok(envelope) => Ok::<NECreateCompletionResponse, OpenAIError>(envelope),
                Err(complaint) => Err(OpenAIError::DecodeError(complaint)),
            },
    {
        match outcome {
            Ok(envelope) => Ok(envelope),
            Err(complaint) => Err(OpenAIError::DecodeError(complaint)),
        }
    }

    /// Whether the status is the success code.
    #[verifier::when_used_as_spec(reports_success)]
    pub fn is_success(&self) -> (yes: bool)
        ensures
            yes == self.reports_success(),
    {
        str_eq(self.status.as_str(), "000000")
    }

    /// Whether the answer is what a conforming service sends.
    pub fn is_well_formed(&self) -> (yes: bool)
        ensures
            yes == self.well_formed(),
    {
        self.detail.is_some() == self.is_success()
    }

    /// The description of the status, if the answer has one. It does not
    /// depend on `detail`, so it can be read from a failed answer.
    pub fn description(&self) -> (text: Option<&str>)
        ensures
            text is Some <==> self.desc is Some,
            text matches Some(t) ==> t@ == self.desc->0@,
    {
        match &self.desc {
            Some(text) => Some(text.as_str()),
            None => None,
        }
    }

    /// Judges the answer: the completion if the status is the success code
    /// and the completion is there, else an
    /// [`OpenAIError::ApplicationError`] that carries the status and its
    /// description.
    pub fn into_result(self) -> (outcome: Result<CreateCompletionResponse, OpenAIError>)
        ensures
            outcome is Ok <==> self.succeeded(),
            outcome matches Ok(detail) ==> self.detail == Some(detail),
            outcome matches Err(error) ==> error@ == (ErrorView::ApplicationError {
                status: self.status@,
                description: text_view(self.desc),
            }),
    {
        let success = self.is_success();
        match self.detail {
            Some(detail) if success => Ok(detail),
            _ => Err(OpenAIError::ApplicationError { status: self.status, description: self.desc }),
        }
    }
}

} // verus!
