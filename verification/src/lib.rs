//! Polls a remote announcement board, extracts unseen notices, and plans
//! their delivery oldest-first while tracking a persistent cursor.
//!
//! The crate is organised around pure, verified logic: decoding a fetched
//! body, structural extraction from listing and detail pages, timestamp
//! parsing, batch planning, and the state machines that drive one pipeline
//! run and the readiness-gated schedule. Network, persistence and the chat
//! transport are left to the surrounding application, which feeds plain
//! values in and carries the requested actions out.

use vstd::prelude::*;

pub mod batch;
pub mod datetime;
pub mod decode;
pub mod detail;
pub mod dom;
pub mod gate;
pub mod list;
pub mod notice;
pub mod num;
pub mod run;
pub mod text;

verus! {

/// Everything that can go wrong during one pipeline run.
///
/// Each variant corresponds to one failure mode of the run: transport and
/// persistence failures are reported by the surrounding application, the
/// rest are produced by the verified logic itself.
#[derive(Debug)]
pub enum NoticeError {
    /// The response carried no content-type header.
    MissingContentType,
    /// The declared character set is neither UTF-8 nor the legacy Korean one.
    UnsupportedEncoding,
    /// The body is not valid under the declared character set.
    DecodeError,
    /// A network or HTTP level failure on a fetch or a delivery call.
    TransportError,
    /// An expected page element is absent: the remote layout changed.
    StructureMismatch,
    /// A listing row lacks a required field; carries the row index.
    ItemFieldMissing(usize),
    /// The detail page's date text does not match the expected pattern;
    /// carries the raw extracted text.
    TimestampParseError(String),
    /// The cursor store failed to read or write.
    PersistenceError,
}

} // verus!
