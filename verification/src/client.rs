//! What a group of API calls knows of the client it belongs to.

use vstd::prelude::*;

verus! {

/// The path that blocking completion calls go to unless another is set.
pub open spec fn default_completion_path() -> Seq<char> {
    "/api/v2/text/completion"@
}

/// The path that streamed completion calls go to unless another is set.
pub open spec fn default_stream_path() -> Seq<char> {
    "/completions"@
}

/// The client of the API: the transport that performs the calls, and the
/// paths that the calls go to. The paths are relative to the transport's
/// base URL.
///
/// The transport `T` is carried, never called: this crate decides what is
/// sent where, and leaves the sending to the transport's owner.
#[derive(Debug, Clone)]
pub struct Client<T> {
    transport: T,
    completion_path: String,
    stream_path: String,
}

impl<T> Client<T> {
    /// The transport of the client.
    pub closed spec fn spec_transport(&self) -> &T {
        &self.transport
    }

    /// The path of blocking completion calls.
    pub closed spec fn completion_route(&self) -> Seq<char> {
        self.completion_path@
    }

    /// The path of streamed completion calls.
    pub closed spec fn stream_route(&self) -> Seq<char> {
        self.stream_path@
    }

    /// A client over `transport`, with the default paths.
    pub fn new(transport: T) -> (client: Self)
        ensures
            client.spec_transport() == transport,
            client.completion_route() == default_completion_path(),
            client.stream_route() == default_stream_path(),
    {
        Client {
            transport,
            completion_path: "/api/v2/text/completion".to_owned(),
            stream_path: "/completions".to_owned(),
        }
    }

    /// The same client with blocking completion calls sent to `path`.
    pub fn with_completion_path(self, path: String) -> (client: Self)
        ensures
            client.spec_transport() == self.spec_transport(),
            client.completion_route() == path@,
            client.stream_route() == self.stream_route(),
    {
        Client {
            transport: self.transport,
            completion_path: path,
            stream_path: self.stream_path,
        }
    }

    /// The same client with streamed completion calls sent to `path`.
    pub fn with_stream_path(self, path: String) -> (client: Self)
        ensures
            client.spec_transport() == self.spec_transport(),
            client.completion_route() == self.completion_route(),
            client.stream_route() == path@,
    {
        Client {
            transport: self.transport,
            completion_path: self.completion_path,
            stream_path: path,
        }
    }

    /// The transport of the client.
    #[verifier::when_used_as_spec(spec_transport)]
    pub fn transport(&self) -> (transport: &T)
        ensures
            transport == self.spec_transport(),
    {
        &self.transport
    }

    /// The path of blocking completion calls.
    pub fn completion_path(&self) -> (path: &str)
        ensures
            path@ == self.completion_route(),
    {
        self.completion_path.as_str()
    }

    /// The path of streamed completion calls.
    pub fn stream_path(&self) -> (path: &str)
        ensures
            path@ == self.stream_route(),
    {
        self.stream_path.as_str()
    }
}

} // verus!
