//! The errors that the stream operations report.

use vstd::prelude::*;

verus! {

/// All error conditions surfaced by the stream-funding contract.
#[derive(Copy, Clone, Debug, PartialEq, Eq, Structural)]
pub enum StreamError {
    /// No stream exists for the provided `stream_id`.
    StreamNotFound,
    /// A stream with this `stream_id` already exists in storage.
    DuplicateStreamId,
    /// `start_time >= stop_time`.
    InvalidTimeRange,
    /// `stop_time` is at or before the current ledger timestamp.
    StopTimeInPast,
    /// `amount` is zero or negative.
    InvalidAmount,
    /// `sender` and `receiver` are the same address.
    SelfStream,
    /// Requested withdrawal exceeds the available balance.
    InsufficientBalance,
    /// Operation requires an Active stream but the stream is Cancelled or Completed.
    StreamNotActive,
    /// An outbound token transfer failed.
    TransferFailed,
    /// The caller is not authorised to perform this operation.
    Unauthorized,
}

} // verus!
