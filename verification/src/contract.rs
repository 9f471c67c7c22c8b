//! The stream table of the contract and its four operations, each taking the
//! ledger time at which it runs.

use crate::address::address_eq;
use crate::errors::StreamError;
use crate::laws::{
    law_balance_is_never_negative, law_cancellation_conserves, law_opened_stream_is_valid,
    law_owed_changes_with_one_stream, law_validity_persists, law_withdrawal_conserves,
    total_owed,
};
use crate::stream::{creation_check, CancelOutcome};
use crate::types::Stream;
use soroban_sdk::Address;
use std::collections::HashMap;
use vstd::prelude::*;

verus! {

broadcast use vstd::std_specs::hash::group_hash_axioms;

/// The streams held by the contract, by stream id, and the latest ledger time
/// at which an operation ran. Ledger time never goes back, so every operation
/// runs at or after that time.
pub struct StreamFundContract {
    streams: HashMap<u64, Stream>,
    last_time: u64,
}

impl View for StreamFundContract {
    type V = Map<u64, Stream>;

    closed spec fn view(&self) -> Map<u64, Stream> {
        self.streams@
    }
}

/// Every stream of `m` is valid at time `t`.
pub open spec fn all_valid_at(m: Map<u64, Stream>, t: int) -> bool {
    forall|id: u64| #[trigger] m.contains_key(id) ==> m[id].valid_at(t)
}

/// Validity of a whole table carries over to every later time.
proof fn lemma_table_validity_persists(m: Map<u64, Stream>, t1: int, t2: int)
    requires
        all_valid_at(m, t1),
        t1 <= t2,
    ensures
        all_valid_at(m, t2),
{
    assert forall|id: u64| #[trigger] m.contains_key(id) implies m[id].valid_at(t2) by {
        law_validity_persists(m[id], t1, t2);
    }
}

impl StreamFundContract {
    #[verifier::type_invariant]
    spec fn streams_valid(self) -> bool {
        all_valid_at(self.streams@, self.last_time as int)
    }

    /// The latest ledger time at which an operation ran (0 for a new table).
    pub closed spec fn clock(&self) -> u64 {
        self.last_time
    }

    /// Every stream in the table is valid at the table's clock: well formed,
    /// an Active stream has not paid out more than it has released, and a
    /// cancelled stream retains a non-negative balance. Each operation states
    /// that it holds afterwards.
    pub open spec fn all_valid(self) -> bool {
        all_valid_at(self@, self.clock() as int)
    }

    /// Moves the table out, leaving an empty one in its place.
    fn take_streams(&mut self) -> (streams: HashMap<u64, Stream>)
        ensures
            streams@ == old(self).streams@,
            final(self).streams@ == Map::<u64, Stream>::empty(),
            final(self).last_time == old(self).last_time,
    {
        let mut streams = HashMap::new();
        std::mem::swap(&mut streams, &mut self.streams);
        streams
    }

    /// A contract that holds no stream.
    pub fn new() -> (c: Self)
        ensures
            c@ == Map::<u64, Stream>::empty(),
            c.clock() == 0,
            c.all_valid(),
    {
        StreamFundContract { streams: HashMap::new(), last_time: 0 }
    }

    /// Creates a continuous stream `stream_id` from `sender` to `receiver` at
    /// ledger time `now`. On success the caller escrows `amount` of `token`
    /// from the sender.
    ///
    /// Errors, in this order: `InvalidAmount` (`amount <= 0`),
    /// `InvalidTimeRange` (`start_time >= stop_time`), `StopTimeInPast`
    /// (`stop_time <= now`), `SelfStream` (the two addresses compare equal),
    /// `DuplicateStreamId` (the id is taken).
    pub fn create_stream(
        &mut self,
        now: u64,
        stream_id: u64,
        sender: Address,
        receiver: Address,
        token: Address,
        amount: i128,
        start_time: u64,
        stop_time: u64,
    ) -> (r: Result<(), StreamError>)
        requires
            now >= old(self).clock(),
        ensures
            final(self).clock() == now,
            final(self).all_valid(),
            r == creation_check(
                amount as int,
                start_time as int,
                stop_time as int,
                now as int,
                address_eq(sender, receiver),
                old(self)@.contains_key(stream_id),
            ),
            r is Ok ==> final(self)@ == old(self)@.insert(
                stream_id,
                Stream::opened(sender, receiver, token, amount, start_time, stop_time),
            ),
            r is Err ==> final(self)@ == old(self)@,
            r is Ok ==> forall|t: Address| #[trigger] total_owed(final(self)@, t) == total_owed(
                old(self)@,
                t,
            ) + (if token == t {
                amount as int
            } else {
                0
            }),
            sender == receiver ==> address_eq(sender, receiver),
    {
        proof {
            use_type_invariant(&*self);
            lemma_table_validity_persists(self.streams@, self.last_time as int, now as int);
        }
        let already_exists = self.streams.contains_key(&stream_id);
        let mut streams = self.take_streams();
        match Stream::open(sender, receiver, token, amount, start_time, stop_time, now, already_exists) {
            Ok(stream) => {
                proof {
                    law_opened_stream_is_valid(
                        sender,
                        receiver,
                        token,
                        amount,
                        start_time,
                        stop_time,
                        now,
                        already_exists,
                        now as int,
                    );
                }
                let ghost before = streams@;
                streams.insert(stream_id, stream);
                proof {
                    assert forall|t: Address| #[trigger] total_owed(streams@, t) == total_owed(
                        before,
                        t,
                    ) + (if token == t {
                        amount as int
                    } else {
                        0
                    }) by {
                        law_owed_changes_with_one_stream(before, stream_id, stream, t);
                    }
                }
                *self = StreamFundContract { streams, last_time: now };
                Ok(())
            },
            Err(e) => {
                *self = StreamFundContract { streams, last_time: now };
                Err(e)
            },
        }
    }

    /// The amount the receiver of `stream_id` can withdraw at ledger time
    /// `now`; for a cancelled stream, the balance retained at cancellation.
    /// Reads only; the balance is never negative and never more than the
    /// stream still holds in escrow.
    pub fn withdrawable_balance(&self, now: u64, stream_id: u64) -> (r: Result<i128, StreamError>)
        requires
            now >= self.clock(),
        ensures
            self.all_valid(),
            !self@.contains_key(stream_id) ==> r == Err::<i128, StreamError>(
                StreamError::StreamNotFound,
            ),
            self@.contains_key(stream_id) ==> (r matches Ok(b) && b == self@[stream_id].available_at(
                now as int,
            )),
            r matches Ok(b) ==> 0 <= b <= self@[stream_id].escrowed(),
    {
        proof {
            use_type_invariant(self);
        }
        match self.streams.get(&stream_id) {
            None => Err(StreamError::StreamNotFound),
            Some(stream) => {
                proof {
                    stream.lemma_well_formed_is_computable(now as int, 0);
                    law_validity_persists(*stream, self.last_time as int, now as int);
                    law_balance_is_never_negative(*stream, now as int);
                }
                Ok(stream.withdrawable_balance(now))
            },
        }
    }

    /// Withdraws `amount` from `stream_id` for its receiver at ledger time
    /// `now`. On success the caller transfers `amount` of the token to the
    /// receiver.
    ///
    /// Errors: `StreamNotFound`, `InvalidAmount` (`amount <= 0`),
    /// `InsufficientBalance` (`amount` above the withdrawable balance).
    pub fn withdraw(&mut self, now: u64, stream_id: u64, amount: i128) -> (r: Result<
        (),
        StreamError,
    >)
        requires
            now >= old(self).clock(),
        ensures
            final(self).clock() == now,
            final(self).all_valid(),
            !old(self)@.contains_key(stream_id) ==> r == Err::<(), StreamError>(
                StreamError::StreamNotFound,
            ) && final(self)@ == old(self)@,
            old(self)@.contains_key(stream_id) && amount <= 0 ==> r == Err::<(), StreamError>(
                StreamError::InvalidAmount,
            ) && final(self)@ == old(self)@,
            old(self)@.contains_key(stream_id) && amount > 0
                && amount > old(self)@[stream_id].available_at(now as int)
                ==> r == Err::<(), StreamError>(
                StreamError::InsufficientBalance,
            ) && final(self)@ == old(self)@,
            old(self)@.contains_key(stream_id) && 0 < amount <= old(self)@[stream_id].available_at(
                now as int,
            ) ==> r == Ok::<(), StreamError>(()) && final(self)@ == old(self)@.insert(
                stream_id,
                old(self)@[stream_id].after_withdrawal(amount as int),
            ),
            r is Ok ==> forall|t: Address| #[trigger] total_owed(final(self)@, t) == total_owed(
                old(self)@,
                t,
            ) - (if old(self)@[stream_id].token == t {
                amount as int
            } else {
                0
            }),
    {
        proof {
            use_type_invariant(&*self);
            lemma_table_validity_persists(self.streams@, self.last_time as int, now as int);
        }
        let ghost before = self.streams@;
        let mut streams = self.take_streams();
        match streams.remove(&stream_id) {
            None => {
                *self = StreamFundContract { streams, last_time: now };
                Err(StreamError::StreamNotFound)
            },
            Some(mut stream) => {
                proof {
                    stream.lemma_well_formed_is_computable(now as int, amount as int);
                    if 0 < amount <= stream.available_at(now as int) {
                        law_withdrawal_conserves(stream, now as int, amount as int);
                    }
                }
                let ghost old_stream = stream;
                let r = stream.withdraw(now, amount);
                streams.insert(stream_id, stream);
                proof {
                    if r is Err {
                        assert(streams@ =~= before);
                    } else {
                        assert(streams@ =~= before.insert(stream_id, stream));
                        assert forall|t: Address| #[trigger] total_owed(streams@, t) == total_owed(
                            before,
                            t,
                        ) - (if old_stream.token == t {
                            amount as int
                        } else {
                            0
                        }) by {
                            law_owed_changes_with_one_stream(before, stream_id, stream, t);
                        }
                    }
                }
                *self = StreamFundContract { streams, last_time: now };
                r
            },
        }
    }

    /// Cancels `stream_id` at ledger time `now`. On success the caller
    /// refunds `sender_refund` of the token to the sender when it is
    /// positive; the receiver's accrued balance stays claimable.
    ///
    /// Errors: `StreamNotFound`, `StreamNotActive` (already cancelled, or
    /// `now >= stop_time`).
    pub fn cancel_stream(&mut self, now: u64, stream_id: u64) -> (r: Result<
        CancelOutcome,
        StreamError,
    >)
        requires
            now >= old(self).clock(),
        ensures
            final(self).clock() == now,
            final(self).all_valid(),
            !old(self)@.contains_key(stream_id) ==> r == Err::<CancelOutcome, StreamError>(
                StreamError::StreamNotFound,
            ) && final(self)@ == old(self)@,
            old(self)@.contains_key(stream_id) && !old(self)@[stream_id].cancellable_at(now as int)
                ==> r == Err::<CancelOutcome, StreamError>(StreamError::StreamNotActive)
                && final(self)@ == old(self)@,
            old(self)@.contains_key(stream_id) && old(self)@[stream_id].cancellable_at(now as int)
                ==> r == Ok::<CancelOutcome, StreamError>(
                (CancelOutcome {
                    sender_refund: old(self)@[stream_id].refund_at(now as int) as i128,
                    receiver_payout: old(self)@[stream_id].payout_at(now as int) as i128,
                }),
            ) && final(self)@ == old(self)@.insert(
                stream_id,
                old(self)@[stream_id].cancelled_at(now as int),
            ),
            r matches Ok(out) ==> forall|t: Address| #[trigger] total_owed(final(self)@, t)
                == total_owed(old(self)@, t) - (if old(self)@[stream_id].token == t {
                out.sender_refund as int
            } else {
                0
            }),
    {
        proof {
            use_type_invariant(&*self);
            lemma_table_validity_persists(self.streams@, self.last_time as int, now as int);
        }
        let ghost before = self.streams@;
        let mut streams = self.take_streams();
        match streams.remove(&stream_id) {
            None => {
                *self = StreamFundContract { streams, last_time: now };
                Err(StreamError::StreamNotFound)
            },
            Some(mut stream) => {
                proof {
                    stream.lemma_well_formed_is_computable(now as int, 0);
                    if stream.cancellable_at(now as int) {
                        law_cancellation_conserves(stream, now as int);
                    }
                }
                let ghost old_stream = stream;
                let r = stream.cancel(now);
                streams.insert(stream_id, stream);
                proof {
                    if r is Err {
                        assert(streams@ =~= before);
                    } else {
                        assert(streams@ =~= before.insert(stream_id, stream));
                        assert forall|t: Address| #[trigger] total_owed(streams@, t) == total_owed(
                            before,
                            t,
                        ) - (if old_stream.token == t {
                            old_stream.refund_at(now as int)
                        } else {
                            0
                        }) by {
                            law_owed_changes_with_one_stream(before, stream_id, stream, t);
                        }
                    }
                }
                *self = StreamFundContract { streams, last_time: now };
                r
            },
        }
    }
}

} // verus!
