//! Linear token streams held in escrow: the accounting, validation and state
//! transitions of the stream-funding contract, with their proofs.

pub mod address;
pub mod contract;
pub mod errors;
pub mod laws;
pub mod schedule;
pub mod storage;
pub mod stream;
pub mod types;

pub use contract::StreamFundContract;
pub use errors::StreamError;
pub use stream::CancelOutcome;
pub use types::{StorageKey, Stream, StreamStatus};
