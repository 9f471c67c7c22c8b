//! What holds of the release schedule and of every stream operation.

use crate::schedule::{elapsed_secs, lemma_released_between_zero_and_total, released};
use crate::errors::StreamError;
use crate::stream::creation_check;
use crate::types::{Stream, StreamStatus};
use soroban_sdk::Address;
use vstd::arithmetic::div_mod::lemma_div_is_ordered;
use vstd::arithmetic::mul::lemma_mul_inequality;
use vstd::prelude::*;

verus! {

/// A stream never releases less than nothing nor more than its total.
pub proof fn law_release_is_bounded(total: int, start: int, stop: int, now: int)
    requires
        0 <= total <= i128::MAX,
        start < stop,
    ensures
        0 <= released(total, start, stop, now) <= total,
{
    lemma_released_between_zero_and_total(total, start, stop, now);
}

/// Tokens are released progressively: as time moves forward, the released
/// amount never decreases.
pub proof fn law_release_is_monotone(total: int, start: int, stop: int, t1: int, t2: int)
    requires
        0 <= total <= i128::MAX,
        start < stop,
        t1 <= t2,
    ensures
        released(total, start, stop, t1) <= released(total, start, stop, t2),
{
    lemma_released_between_zero_and_total(total, start, stop, t2);
    if t2 >= stop {
        lemma_released_between_zero_and_total(total, start, stop, t1);
    } else if t1 > start {
        let e1 = elapsed_secs(start, stop, t1);
        let e2 = elapsed_secs(start, stop, t2);
        let d = stop - start;
        lemma_mul_inequality(e1, e2, total);
        lemma_mul_inequality(0, e1, total);
        let a1 = crate::schedule::clamp_i128(total * e1);
        let a2 = crate::schedule::clamp_i128(total * e2);
        assert(0 <= a1 <= a2) by (nonlinear_arith)
            requires
                a1 == crate::schedule::clamp_i128(total * e1),
                a2 == crate::schedule::clamp_i128(total * e2),
                0 <= e1 * total,
                e1 * total <= e2 * total,
        ;
        lemma_div_is_ordered(a1, a2, d);
    }
}

/// Once the stop time is reached the whole total has been released.
pub proof fn law_release_completes_at_stop(total: int, start: int, stop: int, now: int)
    requires
        start < stop,
        stop <= now,
    ensures
        released(total, start, stop, now) == total,
{
}

/// A newly opened stream is valid at its creation time, holds the whole
/// amount in escrow, and makes available at any time `t` exactly what its
/// schedule has released by then.
pub proof fn law_opened_stream_is_valid(
    sender: Address,
    receiver: Address,
    token: Address,
    amount: i128,
    start_time: u64,
    stop_time: u64,
    now: u64,
    already_exists: bool,
    t: int,
)
    requires
        creation_check(
            amount as int,
            start_time as int,
            stop_time as int,
            now as int,
            false,
            already_exists,
        ) is Ok,
    ensures
        Stream::opened(sender, receiver, token, amount, start_time, stop_time).valid_at(now as int),
        Stream::opened(sender, receiver, token, amount, start_time, stop_time).escrowed()
            == amount,
        Stream::opened(sender, receiver, token, amount, start_time, stop_time).available_at(t)
            == Stream::opened(sender, receiver, token, amount, start_time, stop_time).released_at(
            t,
        ),
{
    law_release_is_bounded(amount as int, start_time as int, stop_time as int, now as int);
}

/// Validity at one ledger time carries over to every later time.
pub proof fn law_validity_persists(s: Stream, t1: int, t2: int)
    requires
        s.valid_at(t1),
        t1 <= t2,
    ensures
        s.valid_at(t2),
{
    law_release_is_monotone(s.total_amount as int, s.start_time as int, s.stop_time as int, t1, t2);
}

/// A valid stream never reports a negative withdrawable balance, nor one
/// above what it holds in escrow, and never owes more than it holds.
pub proof fn law_balance_is_never_negative(s: Stream, now: int)
    requires
        s.valid_at(now),
    ensures
        0 <= s.available_at(now) <= s.escrowed(),
        0 <= s.escrowed() <= s.total_amount,
        s.withdrawn_amount <= s.total_amount,
{
    law_release_is_bounded(s.total_amount as int, s.start_time as int, s.stop_time as int, now);
}

/// A withdrawal that succeeds keeps the stream well formed, valid at the
/// withdrawal time, and under the same status; it adds exactly `amount` to
/// what has been withdrawn and takes exactly `amount` out of escrow.
pub proof fn law_withdrawal_conserves(s: Stream, now: int, amount: int)
    requires
        s.well_formed(),
        0 < amount <= s.available_at(now),
    ensures
        s.after_withdrawal(amount).well_formed(),
        s.valid_at(now) ==> s.after_withdrawal(amount).valid_at(now),
        s.after_withdrawal(amount).status == s.status,
        s.after_withdrawal(amount).withdrawn_amount == s.withdrawn_amount + amount,
        s.after_withdrawal(amount).escrowed() == s.escrowed() - amount,
        s.status == StreamStatus::Cancelled ==> s.after_withdrawal(amount).withdrawn_amount
            + s.after_withdrawal(amount).receiver_retained == s.withdrawn_amount
            + s.receiver_retained,
{
    s.lemma_well_formed_is_computable(now, amount);
    law_release_is_bounded(s.total_amount as int, s.start_time as int, s.stop_time as int, now);
}

/// A cancellation that succeeds keeps the stream well formed (and valid at
/// the cancellation time), leaves what has been withdrawn untouched, and
/// splits the escrow exactly: what was withdrawn, what the receiver retains
/// and what the sender gets back add up to the total.
pub proof fn law_cancellation_conserves(s: Stream, now: int)
    requires
        s.well_formed(),
        s.cancellable_at(now),
    ensures
        s.cancelled_at(now).well_formed(),
        s.valid_at(now) ==> s.cancelled_at(now).valid_at(now),
        s.cancelled_at(now).status == StreamStatus::Cancelled,
        s.cancelled_at(now).withdrawn_amount == s.withdrawn_amount,
        s.cancelled_at(now).withdrawn_amount + s.cancelled_at(now).receiver_retained + s.refund_at(
            now,
        ) == s.total_amount,
        s.cancelled_at(now).escrowed() + s.refund_at(now) == s.escrowed(),
        0 <= s.refund_at(now) <= s.total_amount,
{
    s.lemma_well_formed_is_computable(now, 0);
    law_release_is_bounded(s.total_amount as int, s.start_time as int, s.stop_time as int, now);
}

/// Between the start and the stop, the release is linear in the whole
/// elapsed time: `total * (now - start) / (stop - start)`, the product held
/// to `i128::MAX` (or `i128::MIN`) when it does not fit, the quotient
/// rounded toward zero.
pub proof fn law_release_is_linear(total: int, start: int, stop: int, now: int)
    requires
        i128::MIN <= total <= i128::MAX,
        start < now < stop,
    ensures
        total >= 0 && total * (now - start) <= i128::MAX ==> released(total, start, stop, now)
            == (total * (now - start)) / (stop - start),
        total >= 0 && total * (now - start) > i128::MAX ==> released(total, start, stop, now)
            == (i128::MAX as int) / (stop - start),
        total < 0 && total * (now - start) >= i128::MIN ==> released(total, start, stop, now)
            == -(((-total) * (now - start)) / (stop - start)),
        total < 0 && total * (now - start) < i128::MIN ==> released(total, start, stop, now)
            == -((-(i128::MIN as int)) / (stop - start)),
{
    let e = now - start;
    assert(elapsed_secs(start, stop, now) == e);
    if total >= 0 {
        lemma_mul_inequality(0, e, total);
        assert(0 <= total * e) by (nonlinear_arith)
            requires
                0 <= e * total,
        ;
    } else {
        assert((-total) * e == -(total * e)) by (nonlinear_arith);
        assert(total * e <= 0) by (nonlinear_arith)
            requires
                total < 0,
                e > 0,
        ;
    }
}

/// Nothing is released up to and including the start, and everything from
/// the stop on.
pub proof fn law_release_outside_window(total: int, start: int, stop: int, now: int)
    ensures
        now <= start ==> released(total, start, stop, now) == 0,
        start < stop <= now ==> released(total, start, stop, now) == total,
{
}

/// A stream can be cancelled exactly while it is Active and its stop time
/// has not been reached.
pub proof fn law_cancellation_allowed(s: Stream, now: int)
    ensures
        s.cancellable_at(now) <==> (s.status == StreamStatus::Active && now < s.stop_time),
{
}

/// A new stream is accepted exactly when its amount is positive, its window
/// is non-empty and ends after `now`, the two parties differ and the id is
/// free; each refusal names the first of these that fails.
pub proof fn law_creation_checks(
    amount: int,
    start_time: int,
    stop_time: int,
    now: int,
    same_party: bool,
    already_exists: bool,
)
    ensures
        creation_check(amount, start_time, stop_time, now, same_party, already_exists) is Ok
            <==> (amount > 0 && start_time < stop_time && now < stop_time && !same_party
            && !already_exists),
        amount <= 0 ==> creation_check(amount, start_time, stop_time, now, same_party, already_exists)
            == Err::<(), StreamError>(StreamError::InvalidAmount),
        amount > 0 && start_time >= stop_time ==> creation_check(
            amount,
            start_time,
            stop_time,
            now,
            same_party,
            already_exists,
        ) == Err::<(), StreamError>(StreamError::InvalidTimeRange),
        amount > 0 && start_time < stop_time && stop_time <= now ==> creation_check(
            amount,
            start_time,
            stop_time,
            now,
            same_party,
            already_exists,
        ) == Err::<(), StreamError>(StreamError::StopTimeInPast),
        amount > 0 && start_time < stop_time && now < stop_time && same_party ==> creation_check(
            amount,
            start_time,
            stop_time,
            now,
            same_party,
            already_exists,
        ) == Err::<(), StreamError>(StreamError::SelfStream),
        amount > 0 && start_time < stop_time && now < stop_time && !same_party && already_exists
            ==> creation_check(amount, start_time, stop_time, now, same_party, already_exists)
            == Err::<(), StreamError>(StreamError::DuplicateStreamId),
{
}

/// A stream that opens successfully records exactly its parameters: the
/// given parties and token, the amount as its total, the given window,
/// nothing withdrawn, Active, nothing retained.
pub proof fn law_open_records_its_parameters(
    sender: Address,
    receiver: Address,
    token: Address,
    amount: i128,
    start_time: u64,
    stop_time: u64,
    now: u64,
    same_party: bool,
    already_exists: bool,
)
    ensures
        Stream::open_result(
            sender,
            receiver,
            token,
            amount,
            start_time,
            stop_time,
            now,
            same_party,
            already_exists,
        ) matches Ok(s) ==> {
            &&& s.sender == sender
            &&& s.receiver == receiver
            &&& s.token == token
            &&& s.total_amount == amount
            &&& s.start_time == start_time
            &&& s.stop_time == stop_time
            &&& s.withdrawn_amount == 0
            &&& s.status == StreamStatus::Active
            &&& s.receiver_retained == 0
        },
        Stream::open_result(
            sender,
            receiver,
            token,
            amount,
            start_time,
            stop_time,
            now,
            same_party,
            already_exists,
        ) is Ok <==> (amount > 0 && start_time < stop_time && now < stop_time && !same_party
            && !already_exists),
        Stream::open_result(
            sender,
            receiver,
            token,
            amount,
            start_time,
            stop_time,
            now,
            same_party,
            already_exists,
        ) matches Err(e) ==> Err::<(), StreamError>(e) == creation_check(
            amount as int,
            start_time as int,
            stop_time as int,
            now as int,
            same_party,
            already_exists,
        ),
{
    law_creation_checks(
        amount as int,
        start_time as int,
        stop_time as int,
        now as int,
        same_party,
        already_exists,
    );
}

/// What the receiver can withdraw: the retained balance of a cancelled
/// stream, nothing up to the start, and otherwise what the schedule has
/// released by `now` less what has been withdrawn.
pub proof fn law_available_balance(s: Stream, now: int)
    ensures
        s.status == StreamStatus::Cancelled ==> s.available_at(now) == s.receiver_retained,
        s.status == StreamStatus::Active && now <= s.start_time ==> s.available_at(now) == 0,
        s.status == StreamStatus::Active && now > s.start_time ==> s.available_at(now) == released(
            s.total_amount as int,
            s.start_time as int,
            s.stop_time as int,
            now,
        ) - s.withdrawn_amount,
{
}

/// A withdrawal changes nothing but the amounts: the parties, the token, the
/// total, the window and the status stay; `amount` is added to what has been
/// withdrawn and, for a cancelled stream, taken from what is retained.
pub proof fn law_withdrawal_changes_only_amounts(s: Stream, amount: int)
    requires
        i128::MIN <= s.withdrawn_amount + amount <= i128::MAX,
        s.status == StreamStatus::Cancelled ==> i128::MIN <= s.receiver_retained - amount
            <= i128::MAX,
    ensures
        s.after_withdrawal(amount).sender == s.sender,
        s.after_withdrawal(amount).receiver == s.receiver,
        s.after_withdrawal(amount).token == s.token,
        s.after_withdrawal(amount).total_amount == s.total_amount,
        s.after_withdrawal(amount).start_time == s.start_time,
        s.after_withdrawal(amount).stop_time == s.stop_time,
        s.after_withdrawal(amount).status == s.status,
        s.after_withdrawal(amount).withdrawn_amount == s.withdrawn_amount + amount,
        s.status == StreamStatus::Cancelled ==> s.after_withdrawal(amount).receiver_retained
            == s.receiver_retained - amount,
        s.status == StreamStatus::Active ==> s.after_withdrawal(amount).receiver_retained
            == s.receiver_retained,
{
}

/// A cancellation changes nothing but the status and the retained balance:
/// the parties, the token, the total, the window and what has been withdrawn
/// stay. The receiver retains what the schedule has released by `now` less
/// what was withdrawn, and the sender gets back the total less what was
/// released.
pub proof fn law_cancellation_changes_only_status_and_retained(s: Stream, now: int)
    requires
        i128::MIN <= released(s.total_amount as int, s.start_time as int, s.stop_time as int, now)
            - s.withdrawn_amount <= i128::MAX,
    ensures
        s.cancelled_at(now).sender == s.sender,
        s.cancelled_at(now).receiver == s.receiver,
        s.cancelled_at(now).token == s.token,
        s.cancelled_at(now).total_amount == s.total_amount,
        s.cancelled_at(now).start_time == s.start_time,
        s.cancelled_at(now).stop_time == s.stop_time,
        s.cancelled_at(now).withdrawn_amount == s.withdrawn_amount,
        s.cancelled_at(now).status == StreamStatus::Cancelled,
        s.cancelled_at(now).receiver_retained == released(
            s.total_amount as int,
            s.start_time as int,
            s.stop_time as int,
            now,
        ) - s.withdrawn_amount,
        s.payout_at(now) == s.cancelled_at(now).receiver_retained,
        s.refund_at(now) == s.total_amount - released(
            s.total_amount as int,
            s.start_time as int,
            s.stop_time as int,
            now,
        ),
{
}

/// What the contract owes in `token` on account of stream `s`: its escrow
/// when it is a stream of that token, nothing otherwise.
pub open spec fn owed_in(s: Stream, token: Address) -> int {
    if s.token == token {
        s.escrowed()
    } else {
        0
    }
}

/// One step of summing what the streams of `m` owe in `token`.
pub open spec fn owed_step(m: Map<u64, Stream>, token: Address) -> spec_fn(int, u64) -> int {
    |acc: int, id: u64| acc + owed_in(m[id], token)
}

/// What the streams of `m` whose ids are in `ids` owe in `token`, summed.
pub open spec fn owed_over(ids: Set<u64>, m: Map<u64, Stream>, token: Address) -> int {
    ids.fold(0int, owed_step(m, token))
}

/// Everything that a table of streams owes in `token`: the tokens of that
/// kind that the contract must keep in escrow.
pub open spec fn total_owed(m: Map<u64, Stream>, token: Address) -> int {
    owed_over(m.dom(), m, token)
}

proof fn lemma_owed_step_commutes(m: Map<u64, Stream>, token: Address)
    ensures
        vstd::set::fold::is_fun_commutative(owed_step(m, token)),
{
    assert forall|b: int, a1: u64, a2: u64| #[trigger]
        owed_step(m, token)(owed_step(m, token)(b, a1), a2) == owed_step(m, token)(
            owed_step(m, token)(b, a2),
            a1,
        ) by {}
}

/// Summing over a set splits off any one of its members.
proof fn lemma_owed_split(ids: Set<u64>, m: Map<u64, Stream>, token: Address, id: u64)
    requires
        ids.finite(),
        ids.contains(id),
    ensures
        owed_over(ids, m, token) == owed_over(ids.remove(id), m, token) + owed_in(m[id], token),
{
    lemma_owed_step_commutes(m, token);
    assert(ids.remove(id).insert(id) =~= ids);
    vstd::set::fold::lemma_fold_insert(ids.remove(id), 0int, owed_step(m, token), id);
}

/// Two tables that agree on the members of `ids` owe the same over `ids`.
proof fn lemma_owed_agree(ids: Set<u64>, m1: Map<u64, Stream>, m2: Map<u64, Stream>, token: Address)
    requires
        ids.finite(),
        forall|id: u64| #[trigger] ids.contains(id) ==> m1[id] == m2[id],
    ensures
        owed_over(ids, m1, token) == owed_over(ids, m2, token),
    decreases ids.len(),
{
    if ids.len() == 0 {
        assert(ids =~= Set::<u64>::empty());
        vstd::set::fold::lemma_fold_empty(0int, owed_step(m1, token));
        vstd::set::fold::lemma_fold_empty(0int, owed_step(m2, token));
    } else {
        let id = ids.choose();
        lemma_owed_agree(ids.remove(id), m1, m2, token);
        lemma_owed_split(ids, m1, token, id);
        lemma_owed_split(ids, m2, token, id);
    }
}

/// Replacing one stream of a table changes what the table owes in any token
/// by exactly the change in what that stream owes; adding a stream under a
/// new id adds what it owes.
pub proof fn law_owed_changes_with_one_stream(
    m: Map<u64, Stream>,
    id: u64,
    s: Stream,
    token: Address,
)
    requires
        m.dom().finite(),
    ensures
        m.contains_key(id) ==> total_owed(m.insert(id, s), token) == total_owed(m, token)
            - owed_in(m[id], token) + owed_in(s, token),
        !m.contains_key(id) ==> total_owed(m.insert(id, s), token) == total_owed(m, token)
            + owed_in(s, token),
{
    let m2 = m.insert(id, s);
    let rest = m.dom().remove(id);
    assert(m2.dom().remove(id) =~= rest);
    lemma_owed_agree(rest, m, m2, token);
    lemma_owed_split(m2.dom(), m2, token, id);
    if m.contains_key(id) {
        lemma_owed_split(m.dom(), m, token, id);
    } else {
        assert(m.dom() =~= rest);
    }
}

} // verus!
