//! A typed client surface over a remote text-completion API.
//!
//! The crate holds the decisions of such a client, with no I/O of its own:
//! which entry point accepts which request and what is then sent
//! ([`completion`]), how the frames of a streamed answer become a sequence
//! of partial results ([`stream`]), and when an answer that arrived intact
//! still reports a failure of the application ([`completion`]). The caller
//! performs the network calls and hands their outcomes back as plain values.

pub mod client;
pub mod completion;
pub mod error;
pub mod stream;
pub mod text;
pub mod types;
