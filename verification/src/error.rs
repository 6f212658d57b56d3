//! The error taxonomy of the library: domain refusals, protocol surprises
//! and header faults. Transport failures never reach this crate; the
//! unverified driver reports them on its own.

use vstd::prelude::*;

verus! {

/// A server feature that an operation may require.
#[derive(Debug, Clone, Copy, PartialEq, Eq, Structural)]
pub enum Feature {
    SyncV3,
}

/// Everything that can go wrong while negotiating or driving a transcode.
#[derive(Debug, Clone, PartialEq, Eq)]
pub enum Error {
    /// The server refused the operation because the account lacks a feature.
    SubscriptionFeatureNotAvailable(Feature),
    /// The server declined to transcode the content at all.
    TranscodeRefused,
    /// The server reported a transcode failure, with its own words.
    TranscodeError(String),
    /// The requested session or queue item does not exist any more.
    ItemNotFound,
    /// The rendition is not ready yet; retry after the transcode completes.
    TranscodeIncomplete,
    /// The download's filename extension names no known container format.
    UnknownContainerFormat(String),
    /// A response header was missing or unreadable.
    InvalidHeaderValue,
    /// The server answered with an unexpected status code or body.
    UnexpectedApiResponse { status_code: u16, content: String },
}

} // verus!
