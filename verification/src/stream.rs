//! The decisions on one stream: opening it, reading its withdrawable
//! balance, withdrawing from it and cancelling it.

use crate::address::{address_eq, same_address};
use crate::errors::StreamError;
use crate::schedule::{lemma_released_between_zero_and_total, released, streamed_amount};
use crate::types::{Stream, StreamStatus};
use soroban_sdk::Address;
use vstd::prelude::*;

verus! {

/// Whether `x` fits in an `i128`.
pub open spec fn fits_i128(x: int) -> bool {
    i128::MIN <= x <= i128::MAX
}

/// The checks that a new stream must pass, in the order in which they are
/// made: a positive amount, a non-empty time window, a window that ends after
/// `now`, two different parties, and an unused stream id.
pub open spec fn creation_check(
    amount: int,
    start_time: int,
    stop_time: int,
    now: int,
    same_party: bool,
    already_exists: bool,
) -> Result<(), StreamError> {
    if amount <= 0 {
        Err(StreamError::InvalidAmount)
    } else if start_time >= stop_time {
        Err(StreamError::InvalidTimeRange)
    } else if stop_time <= now {
        Err(StreamError::StopTimeInPast)
    } else if same_party {
        Err(StreamError::SelfStream)
    } else if already_exists {
        Err(StreamError::DuplicateStreamId)
    } else {
        Ok(())
    }
}

/// Validates the parameters of a new stream.
pub fn validate_new_stream(
    amount: i128,
    start_time: u64,
    stop_time: u64,
    now: u64,
    same_party: bool,
    already_exists: bool,
) -> (r: Result<(), StreamError>)
    ensures
        r == creation_check(
            amount as int,
            start_time as int,
            stop_time as int,
            now as int,
            same_party,
            already_exists,
        ),
{
    if amount <= 0 {
        return Err(StreamError::InvalidAmount);
    }
    if start_time >= stop_time {
        return Err(StreamError::InvalidTimeRange);
    }
    if stop_time <= now {
        return Err(StreamError::StopTimeInPast);
    }
    if same_party {
        return Err(StreamError::SelfStream);
    }
    if already_exists {
        return Err(StreamError::DuplicateStreamId);
    }
    Ok(())
}

/// What a cancellation hands out: the unstreamed tokens that go back to the
/// sender, and the accrued balance that stays claimable by the receiver.
#[derive(Copy, Clone, Debug, PartialEq, Eq, Structural)]
pub struct CancelOutcome {
    pub sender_refund: i128,
    pub receiver_payout: i128,
}

impl Stream {
    /// The record of a freshly created stream.
    pub open spec fn opened(
        sender: Address,
        receiver: Address,
        token: Address,
        amount: i128,
        start_time: u64,
        stop_time: u64,
    ) -> Stream {
        Stream {
            sender,
            receiver,
            token,
            total_amount: amount,
            start_time,
            stop_time,
            withdrawn_amount: 0,
            status: StreamStatus::Active,
            receiver_retained: 0,
        }
    }

    /// The outcome of opening a stream, given the answer to "are sender and
    /// receiver the same address?" and whether the id is taken.
    pub open spec fn open_result(
        sender: Address,
        receiver: Address,
        token: Address,
        amount: i128,
        start_time: u64,
        stop_time: u64,
        now: u64,
        same_party: bool,
        already_exists: bool,
    ) -> Result<Stream, StreamError> {
        match creation_check(
            amount as int,
            start_time as int,
            stop_time as int,
            now as int,
            same_party,
            already_exists,
        ) {
            Ok(_) => Ok(Stream::opened(sender, receiver, token, amount, start_time, stop_time)),
            Err(e) => Err(e),
        }
    }

    /// Tokens released by this stream's schedule at time `now`.
    pub open spec fn released_at(self, now: int) -> int {
        released(self.total_amount as int, self.start_time as int, self.stop_time as int, now)
    }

    /// The balance that the receiver can withdraw at time `now`: the retained
    /// balance of a cancelled stream, nothing before the start, and otherwise
    /// what has been released and not yet withdrawn.
    pub open spec fn available_at(self, now: int) -> int {
        if self.status == StreamStatus::Cancelled {
            self.receiver_retained as int
        } else if now <= self.start_time {
            0
        } else {
            self.released_at(now) - self.withdrawn_amount
        }
    }

    /// The balance at `now` can be computed without overflow or division by
    /// zero.
    pub open spec fn balance_computable_at(self, now: int) -> bool {
        ||| self.status == StreamStatus::Cancelled
        ||| now <= self.start_time
        ||| self.start_time < self.stop_time && fits_i128(
            self.released_at(now) - self.withdrawn_amount,
        )
    }

    /// A withdrawal of `amount` at `now` can be carried out without overflow.
    pub open spec fn withdrawal_computable(self, now: int, amount: int) -> bool {
        amount > 0 ==> {
            &&& self.balance_computable_at(now)
            &&& amount <= self.available_at(now) ==> self.withdrawn_amount + amount <= i128::MAX
        }
    }

    /// The record after the receiver has withdrawn `amount`.
    pub open spec fn after_withdrawal(self, amount: int) -> Stream {
        Stream {
            withdrawn_amount: (self.withdrawn_amount + amount) as i128,
            receiver_retained: if self.status == StreamStatus::Cancelled {
                (self.receiver_retained - amount) as i128
            } else {
                self.receiver_retained
            },
            ..self
        }
    }

    /// The stream can be cancelled at `now`: it is Active and not yet
    /// completed.
    pub open spec fn cancellable_at(self, now: int) -> bool {
        self.status == StreamStatus::Active && now < self.stop_time
    }

    /// A cancellation at `now` can be carried out without overflow.
    pub open spec fn cancel_computable(self, now: int) -> bool {
        self.cancellable_at(now) ==> {
            &&& self.start_time <= self.stop_time
            &&& fits_i128(self.released_at(now) - self.withdrawn_amount)
        }
    }

    /// The tokens that go back to the sender on a cancellation at `now`.
    pub open spec fn refund_at(self, now: int) -> int {
        self.total_amount - self.released_at(now)
    }

    /// The accrued balance that the receiver keeps on a cancellation at `now`.
    pub open spec fn payout_at(self, now: int) -> int {
        self.released_at(now) - self.withdrawn_amount
    }

    /// The record after a cancellation at `now`.
    pub open spec fn cancelled_at(self, now: int) -> Stream {
        Stream {
            status: StreamStatus::Cancelled,
            receiver_retained: self.payout_at(now) as i128,
            ..self
        }
    }

    /// Tokens that the contract holds in escrow for this stream: the retained
    /// balance once cancelled, otherwise everything not yet withdrawn.
    pub open spec fn escrowed(self) -> int {
        if self.status == StreamStatus::Cancelled {
            self.receiver_retained as int
        } else {
            self.total_amount - self.withdrawn_amount
        }
    }

    /// What every stored stream satisfies at any time: a positive total, a
    /// non-empty window, withdrawals that never exceed the total, nothing
    /// retained while Active, and once cancelled, no more claimed than the
    /// total.
    pub open spec fn well_formed(self) -> bool {
        &&& self.total_amount > 0
        &&& self.start_time < self.stop_time
        &&& 0 <= self.withdrawn_amount <= self.total_amount
        &&& if self.status == StreamStatus::Active {
            self.receiver_retained == 0
        } else {
            self.withdrawn_amount + self.receiver_retained <= self.total_amount
        }
    }

    /// What a stored stream satisfies while ledger time does not go back
    /// before `now`: it is well formed, an Active stream has not paid out more
    /// than it has released, and a cancelled stream owes a non-negative
    /// balance.
    pub open spec fn valid_at(self, now: int) -> bool {
        &&& self.well_formed()
        &&& if self.status == StreamStatus::Active {
            self.withdrawn_amount <= self.released_at(now)
        } else {
            self.receiver_retained >= 0
        }
    }

    /// A well-formed stream can be read, withdrawn from and cancelled at any
    /// time without overflow.
    pub proof fn lemma_well_formed_is_computable(self, now: int, amount: int)
        requires
            self.well_formed(),
        ensures
            self.balance_computable_at(now),
            self.withdrawal_computable(now, amount),
            self.cancel_computable(now),
    {
        lemma_released_between_zero_and_total(
            self.total_amount as int,
            self.start_time as int,
            self.stop_time as int,
            now,
        );
    }

    /// Tells whether the balance at `now` can be computed without overflow
    /// or division by zero, where computing it would otherwise panic.
    pub fn can_report_balance(&self, now: u64) -> (r: bool)
        ensures
            r == self.balance_computable_at(now as int),
    {
        if self.status == StreamStatus::Cancelled || now <= self.start_time {
            return true;
        }
        if self.start_time >= self.stop_time {
            return false;
        }
        let streamed: i128 = streamed_amount(self.total_amount, self.start_time, self.stop_time, now);
        streamed.checked_sub(self.withdrawn_amount).is_some()
    }

    /// Tells whether a withdrawal of `amount` at `now` can be carried out
    /// without overflow, where carrying it out would otherwise panic.
    pub fn can_withdraw(&self, now: u64, amount: i128) -> (r: bool)
        ensures
            r == self.withdrawal_computable(now as int, amount as int),
    {
        if amount <= 0 {
            return true;
        }
        if !self.can_report_balance(now) {
            return false;
        }
        if amount > self.withdrawable_balance(now) {
            return true;
        }
        self.withdrawn_amount.checked_add(amount).is_some()
    }

    /// Tells whether a cancellation at `now` can be carried out without
    /// overflow, where carrying it out would otherwise panic.
    pub fn can_cancel(&self, now: u64) -> (r: bool)
        ensures
            r == self.cancel_computable(now as int),
    {
        if !(self.status == StreamStatus::Active && now < self.stop_time) {
            return true;
        }
        if self.start_time > self.stop_time {
            return false;
        }
        let streamed: i128 = streamed_amount(self.total_amount, self.start_time, self.stop_time, now);
        streamed.checked_sub(self.withdrawn_amount).is_some()
    }

    /// Opens a stream from `sender` to `receiver`, escrowing `amount` of
    /// `token` over `[start_time, stop_time]`, at ledger time `now`. The two
    /// parties are the same when their addresses compare equal.
    pub fn open(
        sender: Address,
        receiver: Address,
        token: Address,
        amount: i128,
        start_time: u64,
        stop_time: u64,
        now: u64,
        already_exists: bool,
    ) -> (r: Result<Stream, StreamError>)
        ensures
            r == Stream::open_result(
                sender,
                receiver,
                token,
                amount,
                start_time,
                stop_time,
                now,
                address_eq(sender, receiver),
                already_exists,
            ),
            sender == receiver ==> address_eq(sender, receiver),
    {
        let same_party = same_address(&sender, &receiver);
        match validate_new_stream(amount, start_time, stop_time, now, same_party, already_exists) {
            Err(e) => Err(e),
            Ok(()) => Ok(
                Stream {
                    sender,
                    receiver,
                    token,
                    total_amount: amount,
                    start_time,
                    stop_time,
                    withdrawn_amount: 0,
                    status: StreamStatus::Active,
                    receiver_retained: 0,
                },
            ),
        }
    }

    /// The amount the receiver can withdraw at ledger time `now`. For a
    /// cancelled stream this is the balance captured at cancellation, not a
    /// time-based recalculation; integer division keeps the dust in escrow
    /// until `stop_time`.
    pub fn withdrawable_balance(&self, now: u64) -> (r: i128)
        requires
            self.balance_computable_at(now as int),
        ensures
            r == self.available_at(now as int),
    {
        if self.status == StreamStatus::Cancelled {
            return self.receiver_retained;
        }
        if now <= self.start_time {
            return 0;
        }
        let total_streamed: i128 = streamed_amount(
            self.total_amount,
            self.start_time,
            self.stop_time,
            now,
        );
        total_streamed - self.withdrawn_amount
    }

    /// Withdraws `amount` for the receiver at ledger time `now`; on success
    /// the caller transfers `amount` of the token to the receiver.
    pub fn withdraw(&mut self, now: u64, amount: i128) -> (r: Result<(), StreamError>)
        requires
            old(self).withdrawal_computable(now as int, amount as int),
        ensures
            amount <= 0 ==> r == Err::<(), StreamError>(StreamError::InvalidAmount) && *final(self)
                == *old(self),
            amount > 0 && amount > old(self).available_at(now as int) ==> r == Err::<
                (),
                StreamError,
            >(StreamError::InsufficientBalance) && *final(self) == *old(self),
            0 < amount <= old(self).available_at(now as int) ==> r == Ok::<(), StreamError>(())
                && *final(self) == old(self).after_withdrawal(amount as int),
    {
        if amount <= 0 {
            return Err(StreamError::InvalidAmount);
        }
        let available: i128 = self.withdrawable_balance(now);
        if amount > available {
            return Err(StreamError::InsufficientBalance);
        }
        if self.status == StreamStatus::Active && now > self.start_time {
            proof {
                lemma_released_between_zero_and_total(
                    self.total_amount as int,
                    self.start_time as int,
                    self.stop_time as int,
                    now as int,
                );
            }
        }
        self.withdrawn_amount = self.withdrawn_amount + amount;
        if self.status == StreamStatus::Cancelled {
            self.receiver_retained = self.receiver_retained - amount;
        }
        Ok(())
    }

    /// Cancels the stream at ledger time `now`. On success the caller refunds
    /// `sender_refund` to the sender (when positive); the receiver's accrued
    /// balance stays claimable through `withdraw`. A cancelled stream, or one
    /// past its stop time, cannot be cancelled.
    pub fn cancel(&mut self, now: u64) -> (r: Result<CancelOutcome, StreamError>)
        requires
            old(self).cancel_computable(now as int),
        ensures
            !old(self).cancellable_at(now as int) ==> r == Err::<CancelOutcome, StreamError>(
                StreamError::StreamNotActive,
            ) && *final(self) == *old(self),
            old(self).cancellable_at(now as int) ==> r == Ok::<CancelOutcome, StreamError>(
                (CancelOutcome {
                    sender_refund: old(self).refund_at(now as int) as i128,
                    receiver_payout: old(self).payout_at(now as int) as i128,
                }),
            ) && *final(self) == old(self).cancelled_at(now as int),
    {
        if self.status == StreamStatus::Cancelled || now >= self.stop_time {
            return Err(StreamError::StreamNotActive);
        }
        let streamed: i128 = if now <= self.start_time {
            0i128
        } else {
            streamed_amount(self.total_amount, self.start_time, self.stop_time, now)
        };
        if now > self.start_time {
            proof {
                lemma_released_between_zero_and_total(
                    self.total_amount as int,
                    self.start_time as int,
                    self.stop_time as int,
                    now as int,
                );
            }
        }
        let receiver_payout: i128 = streamed - self.withdrawn_amount;
        let sender_refund: i128 = self.total_amount - streamed;
        self.status = StreamStatus::Cancelled;
        self.receiver_retained = receiver_payout;
        Ok(CancelOutcome { sender_refund, receiver_payout })
    }
}

} // verus!
