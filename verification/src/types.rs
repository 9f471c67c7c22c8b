//! The stream record and its storage key.

use soroban_sdk::Address;
use vstd::prelude::*;

verus! {

/// Current lifecycle state of a stream.
///
/// `Completed` is a derived state: a stream is completed once the current
/// time has reached `stop_time`, and no record changes when that happens.
#[derive(Copy, Clone, Debug, PartialEq, Eq, Structural)]
pub enum StreamStatus {
    Active,
    Cancelled,
}

/// Storage key namespace for persistent stream records.
#[derive(Copy, Clone, Debug, PartialEq, Eq, Structural)]
pub enum StorageKey {
    Stream(u64),
}

/// A time-bounded linear token stream held in escrow.
///
/// Tokens are released linearly from `start_time` to `stop_time`. The
/// receiver may withdraw the accrued balance at any point; the sender may
/// cancel early, recovering unstreamed tokens while the receiver's accrued
/// balance stays claimable.
#[derive(Clone, Debug, PartialEq, Eq)]
pub struct Stream {
    /// Address that created and funded the stream.
    pub sender: Address,
    /// Address that receives streamed tokens.
    pub receiver: Address,
    /// Token contract address.
    pub token: Address,
    /// Total tokens escrowed at creation.
    pub total_amount: i128,
    /// Ledger timestamp at which streaming begins.
    pub start_time: u64,
    /// Ledger timestamp at which streaming ends.
    pub stop_time: u64,
    /// Cumulative tokens already withdrawn by the receiver.
    pub withdrawn_amount: i128,
    /// Current lifecycle status of the stream.
    pub status: StreamStatus,
    /// Receiver's claimable balance captured at cancellation time; zero while
    /// the stream is Active.
    pub receiver_retained: i128,
}

} // verus!
