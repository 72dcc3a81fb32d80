//! The errors a completion call can end in.

use vstd::prelude::*;

verus! {

/// Why a completion call, or a streamed sequence, failed.
#[derive(Debug, Clone, PartialEq, Eq)]
pub enum OpenAIError {
    /// The caller broke the contract of an entry point. Found before
    /// anything is sent, and never worth a retry.
    InvalidArgument(String),
    /// The transport could not deliver: a connection error or a status
    /// outside 2xx. Carries the transport's own words.
    TransportError(String),
    /// A body or a frame does not fit the expected schema. Carries the
    /// decoder's own words.
    DecodeError(String),
    /// The answer arrived intact but reports a failure of the application.
    ApplicationError {
        /// The status code of the answer.
        status: String,
        /// What the service said about it, if anything.
        description: Option<String>,
    },
}

/// An [`OpenAIError`] with its texts as character sequences.
pub enum ErrorView {
    InvalidArgument(Seq<char>),
    TransportError(Seq<char>),
    DecodeError(Seq<char>),
    ApplicationError { status: Seq<char>, description: Option<Seq<char>> },
}

/// The characters of an optional text.
pub open spec fn text_view(text: Option<String>) -> Option<Seq<char>> {
    match text {
        Some(t) => Some(t@),
        None => None,
    }
}

impl View for OpenAIError {
    type V = ErrorView;

    open spec fn view(&self) -> ErrorView {
        match *self {
            OpenAIError::InvalidArgument(message) => ErrorView::InvalidArgument(message@),
            OpenAIError::TransportError(message) => ErrorView::TransportError(message@),
            OpenAIError::DecodeError(message) => ErrorView::DecodeError(message@),
            OpenAIError::ApplicationError { status, description } => ErrorView::ApplicationError {
                status: status@,
                description: text_view(description),
            },
        }
    }
}

} // verus!
