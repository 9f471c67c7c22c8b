use soroban_sdk::testutils::Address as _;
use soroban_sdk::{Address, Env};
use stream_fund::{StreamError, StreamFundContract};

const START_OFFSET: u64 = 100; // seconds after "now" that streams start
const DURATION: u64 = 1_000; // stream duration in seconds
const AMOUNT: i128 = 1_000_000; // total tokens escrowed

/// A contract, its ledger time, and the token balances that the transfers
/// it asks for produce.
struct Fixture {
    _env: Env,
    contract: StreamFundContract,
    now: u64,
    contract_addr: Address,
    token: Address,
    sender: Address,
    receiver: Address,
    balances: Vec<(Address, i128)>,
}

impl Fixture {
    fn balance(&self, who: &Address) -> i128 {
        for (a, b) in &self.balances {
            if a == who {
                return *b;
            }
        }
        0
    }

    fn move_tokens(&mut self, from: &Address, to: &Address, amount: i128) {
        assert!(self.balance(from) >= amount, "transfer exceeds balance");
        for (a, b) in self.balances.iter_mut() {
            if a == from {
                *b -= amount;
            }
        }
        let mut found = false;
        for (a, b) in self.balances.iter_mut() {
            if a == to {
                *b += amount;
                found = true;
            }
        }
        if !found {
            self.balances.push((to.clone(), amount));
        }
    }

    fn set_time(&mut self, ts: u64) {
        self.now = ts;
    }

    fn create_stream(
        &mut self,
        id: u64,
        sender: &Address,
        receiver: &Address,
        amount: i128,
        start: u64,
        stop: u64,
    ) -> Result<(), StreamError> {
        let r = self.contract.create_stream(
            self.now,
            id,
            sender.clone(),
            receiver.clone(),
            self.token.clone(),
            amount,
            start,
            stop,
        );
        if r.is_ok() {
            let contract_addr = self.contract_addr.clone();
            self.move_tokens(sender, &contract_addr, amount);
        }
        r
    }

    fn withdrawable_balance(&self, id: u64) -> Result<i128, StreamError> {
        self.contract.withdrawable_balance(self.now, id)
    }

    fn withdraw(&mut self, id: u64, amount: i128) -> Result<(), StreamError> {
        self.contract.withdraw(self.now, id, amount)?;
        let (from, to) = (self.contract_addr.clone(), self.receiver.clone());
        self.move_tokens(&from, &to, amount);
        Ok(())
    }

    fn cancel_stream(&mut self, id: u64) -> Result<(), StreamError> {
        let outcome = self.contract.cancel_stream(self.now, id)?;
        if outcome.sender_refund > 0 {
            let (from, to) = (self.contract_addr.clone(), self.sender.clone());
            self.move_tokens(&from, &to, outcome.sender_refund);
        }
        Ok(())
    }
}

/// A fresh contract at time 1_000_000, with `AMOUNT * 10` tokens minted to
/// the sender; returns the fixture with `now`, `start` and `stop`.
fn setup() -> (Fixture, u64, u64, u64) {
    let env = Env::default();
    let now: u64 = 1_000_000;
    let contract_addr = Address::generate(&env);
    let token = Address::generate(&env);
    let sender = Address::generate(&env);
    let receiver = Address::generate(&env);
    let balances = vec![(sender.clone(), AMOUNT * 10)];
    let f = Fixture {
        _env: env,
        contract: StreamFundContract::new(),
        now,
        contract_addr,
        token,
        sender,
        receiver,
        balances,
    };
    let start = now + START_OFFSET;
    let stop = start + DURATION;
    (f, now, start, stop)
}

/// Creates the default stream with id 1.
fn create_default_stream(f: &mut Fixture, start: u64, stop: u64) -> u64 {
    let id = 1u64;
    let (sender, receiver) = (f.sender.clone(), f.receiver.clone());
    f.create_stream(id, &sender, &receiver, AMOUNT, start, stop).unwrap();
    id
}

// ── create_stream ────────────────────────────────────────────────────────────

#[test]
fn create_stream_happy_path() {
    let (mut f, _now, start, stop) = setup();
    let (sender, receiver) = (f.sender.clone(), f.receiver.clone());
    let result = f.create_stream(1u64, &sender, &receiver, AMOUNT, start, stop);
    assert!(result.is_ok());

    assert_eq!(f.balance(&f.contract_addr), AMOUNT);
    assert_eq!(f.balance(&f.sender), AMOUNT * 10 - AMOUNT);
}

#[test]
fn create_stream_duplicate_id() {
    let (mut f, _now, start, stop) = setup();
    create_default_stream(&mut f, start, stop);
    let (sender, receiver) = (f.sender.clone(), f.receiver.clone());
    let result = f.create_stream(1u64, &sender, &receiver, AMOUNT, start, stop);
    assert_eq!(result.unwrap_err(), StreamError::DuplicateStreamId);
}

#[test]
fn create_stream_start_equals_stop() {
    let (mut f, _now, start, _stop) = setup();
    let (sender, receiver) = (f.sender.clone(), f.receiver.clone());
    let result = f.create_stream(1u64, &sender, &receiver, AMOUNT, start, start);
    assert_eq!(result.unwrap_err(), StreamError::InvalidTimeRange);
}

#[test]
fn create_stream_start_after_stop() {
    let (mut f, _now, start, stop) = setup();
    let (sender, receiver) = (f.sender.clone(), f.receiver.clone());
    let result = f.create_stream(1u64, &sender, &receiver, AMOUNT, stop, start);
    assert_eq!(result.unwrap_err(), StreamError::InvalidTimeRange);
}

#[test]
fn create_stream_stop_time_in_past() {
    let (mut f, now, _start, _stop) = setup();
    let past_stop = now - 1;
    let past_start = past_stop - DURATION;
    let (sender, receiver) = (f.sender.clone(), f.receiver.clone());
    let result = f.create_stream(1u64, &sender, &receiver, AMOUNT, past_start, past_stop);
    assert_eq!(result.unwrap_err(), StreamError::StopTimeInPast);
}

#[test]
fn create_stream_zero_amount() {
    let (mut f, _now, start, stop) = setup();
    let (sender, receiver) = (f.sender.clone(), f.receiver.clone());
    let result = f.create_stream(1u64, &sender, &receiver, 0, start, stop);
    assert_eq!(result.unwrap_err(), StreamError::InvalidAmount);
}

#[test]
fn create_stream_negative_amount() {
    let (mut f, _now, start, stop) = setup();
    let (sender, receiver) = (f.sender.clone(), f.receiver.clone());
    let result = f.create_stream(1u64, &sender, &receiver, -1, start, stop);
    assert_eq!(result.unwrap_err(), StreamError::InvalidAmount);
}

#[test]
fn create_stream_self_stream() {
    let (mut f, _now, start, stop) = setup();
    let sender = f.sender.clone();
    let result = f.create_stream(1u64, &sender, &sender, AMOUNT, start, stop);
    assert_eq!(result.unwrap_err(), StreamError::SelfStream);
}

// ── withdrawable_balance ─────────────────────────────────────────────────────

#[test]
fn balance_before_start_returns_zero() {
    let (mut f, _now, start, stop) = setup();
    let id = create_default_stream(&mut f, start, stop);
    // still before start_time
    assert_eq!(f.withdrawable_balance(id).unwrap(), 0);
}

#[test]
fn balance_at_start_returns_zero() {
    let (mut f, _now, start, stop) = setup();
    let id = create_default_stream(&mut f, start, stop);
    f.set_time(start);
    assert_eq!(f.withdrawable_balance(id).unwrap(), 0);
}

#[test]
fn balance_midway_correct() {
    let (mut f, _now, start, stop) = setup();
    let id = create_default_stream(&mut f, start, stop);
    f.set_time(start + DURATION / 2);
    let expected = AMOUNT * (DURATION as i128 / 2) / DURATION as i128;
    assert_eq!(f.withdrawable_balance(id).unwrap(), expected);
}

#[test]
fn balance_quarter_point() {
    let (mut f, _now, start, stop) = setup();
    let id = create_default_stream(&mut f, start, stop);
    f.set_time(start + DURATION / 4);
    let expected = AMOUNT * (DURATION as i128 / 4) / DURATION as i128;
    assert_eq!(f.withdrawable_balance(id).unwrap(), expected);
}

#[test]
fn balance_at_stop_time() {
    let (mut f, _now, start, stop) = setup();
    let id = create_default_stream(&mut f, start, stop);
    f.set_time(stop);
    assert_eq!(f.withdrawable_balance(id).unwrap(), AMOUNT);
}

#[test]
fn balance_after_stop_time() {
    let (mut f, _now, start, stop) = setup();
    let id = create_default_stream(&mut f, start, stop);
    f.set_time(stop + 10_000);
    assert_eq!(f.withdrawable_balance(id).unwrap(), AMOUNT);
}

#[test]
fn balance_after_partial_withdrawal() {
    let (mut f, _now, start, stop) = setup();
    let id = create_default_stream(&mut f, start, stop);
    f.set_time(stop);
    f.withdraw(id, AMOUNT / 2).unwrap();
    assert_eq!(f.withdrawable_balance(id).unwrap(), AMOUNT / 2);
}

#[test]
fn balance_cancelled_stream_returns_retained() {
    let (mut f, _now, start, stop) = setup();
    let id = create_default_stream(&mut f, start, stop);
    f.set_time(start + DURATION / 2);
    f.cancel_stream(id).unwrap();
    // should return captured retained balance, not a new time-based value
    assert_eq!(f.withdrawable_balance(id).unwrap(), AMOUNT / 2);
}

#[test]
fn balance_stream_not_found() {
    let (f, _now, _start, _stop) = setup();
    assert_eq!(f.withdrawable_balance(999u64).unwrap_err(), StreamError::StreamNotFound);
}

// ── withdraw ─────────────────────────────────────────────────────────────────

#[test]
fn withdraw_happy_path() {
    let (mut f, _now, start, stop) = setup();
    let id = create_default_stream(&mut f, start, stop);
    f.set_time(stop);

    let before = f.balance(&f.receiver);
    f.withdraw(id, AMOUNT).unwrap();
    assert_eq!(f.balance(&f.receiver) - before, AMOUNT);
    assert_eq!(f.balance(&f.contract_addr), 0);
}

#[test]
fn withdraw_multiple_partial() {
    let (mut f, _now, start, stop) = setup();
    let id = create_default_stream(&mut f, start, stop);
    f.set_time(stop);

    f.withdraw(id, AMOUNT / 4).unwrap();
    f.withdraw(id, AMOUNT / 4).unwrap();
    f.withdraw(id, AMOUNT / 2).unwrap();

    assert_eq!(f.balance(&f.receiver), AMOUNT);
    assert_eq!(f.balance(&f.contract_addr), 0);
}

#[test]
fn withdraw_after_cancellation() {
    let (mut f, _now, start, stop) = setup();
    let id = create_default_stream(&mut f, start, stop);
    f.set_time(start + DURATION / 2);
    f.cancel_stream(id).unwrap();

    let before = f.balance(&f.receiver);
    f.withdraw(id, AMOUNT / 2).unwrap();
    assert_eq!(f.balance(&f.receiver) - before, AMOUNT / 2);
}

#[test]
fn withdraw_insufficient_balance() {
    let (mut f, _now, start, stop) = setup();
    let id = create_default_stream(&mut f, start, stop);
    f.set_time(stop);
    assert_eq!(f.withdraw(id, AMOUNT + 1).unwrap_err(), StreamError::InsufficientBalance);
}

#[test]
fn withdraw_before_start_insufficient() {
    let (mut f, _now, start, stop) = setup();
    let id = create_default_stream(&mut f, start, stop);
    // still before start_time — nothing available
    assert_eq!(f.withdraw(id, 1).unwrap_err(), StreamError::InsufficientBalance);
}

#[test]
fn withdraw_zero_amount() {
    let (mut f, _now, start, stop) = setup();
    let id = create_default_stream(&mut f, start, stop);
    f.set_time(stop);
    assert_eq!(f.withdraw(id, 0).unwrap_err(), StreamError::InvalidAmount);
}

#[test]
fn withdraw_negative_amount() {
    let (mut f, _now, start, stop) = setup();
    let id = create_default_stream(&mut f, start, stop);
    f.set_time(stop);
    assert_eq!(f.withdraw(id, -1).unwrap_err(), StreamError::InvalidAmount);
}

#[test]
fn withdraw_stream_not_found() {
    let (mut f, _now, _start, _stop) = setup();
    assert_eq!(f.withdraw(999u64, 1).unwrap_err(), StreamError::StreamNotFound);
}

#[test]
fn withdraw_exhausted_retained_balance() {
    let (mut f, _now, start, stop) = setup();
    let id = create_default_stream(&mut f, start, stop);
    f.set_time(start + DURATION / 2);
    f.cancel_stream(id).unwrap();
    f.withdraw(id, AMOUNT / 2).unwrap();
    assert_eq!(f.withdraw(id, 1).unwrap_err(), StreamError::InsufficientBalance);
}

// ── cancel_stream ────────────────────────────────────────────────────────────

#[test]
fn cancel_before_start_full_refund() {
    let (mut f, _now, start, stop) = setup();
    let id = create_default_stream(&mut f, start, stop);

    let before = f.balance(&f.sender);
    f.cancel_stream(id).unwrap();
    assert_eq!(f.balance(&f.sender) - before, AMOUNT);

    // receiver_retained is 0 — withdrawal should fail
    assert_eq!(f.withdraw(id, 1).unwrap_err(), StreamError::InsufficientBalance);
}

#[test]
fn cancel_midway_correct_split() {
    let (mut f, _now, start, stop) = setup();
    let id = create_default_stream(&mut f, start, stop);
    f.set_time(start + DURATION / 2);

    let before = f.balance(&f.sender);
    f.cancel_stream(id).unwrap();
    assert_eq!(f.balance(&f.sender) - before, AMOUNT / 2);
    assert_eq!(f.withdrawable_balance(id).unwrap(), AMOUNT / 2);
}

#[test]
fn cancel_after_stop_is_not_active() {
    let (mut f, _now, start, stop) = setup();
    let id = create_default_stream(&mut f, start, stop);
    f.set_time(stop + 1);
    assert_eq!(f.cancel_stream(id).unwrap_err(), StreamError::StreamNotActive);
}

#[test]
fn cancel_emits_event_no_panic() {
    let (mut f, _now, start, stop) = setup();
    let id = create_default_stream(&mut f, start, stop);
    f.set_time(start + DURATION / 4);
    f.cancel_stream(id).unwrap();
}

#[test]
fn cancel_already_cancelled() {
    let (mut f, _now, start, stop) = setup();
    let id = create_default_stream(&mut f, start, stop);
    f.cancel_stream(id).unwrap();
    assert_eq!(f.cancel_stream(id).unwrap_err(), StreamError::StreamNotActive);
}

#[test]
fn cancel_stream_not_found() {
    let (mut f, _now, _start, _stop) = setup();
    assert_eq!(f.cancel_stream(999u64).unwrap_err(), StreamError::StreamNotFound);
}

#[test]
fn cancel_receiver_can_withdraw_retained() {
    let (mut f, _now, start, stop) = setup();
    let id = create_default_stream(&mut f, start, stop);
    f.set_time(start + DURATION / 2);
    f.cancel_stream(id).unwrap();

    let before = f.balance(&f.receiver);
    f.withdraw(id, AMOUNT / 2).unwrap();
    assert_eq!(f.balance(&f.receiver) - before, AMOUNT / 2);
}

// ── invariants ───────────────────────────────────────────────────────────────

#[test]
fn invariant_partial_withdraw_then_cancel() {
    let (mut f, _now, start, stop) = setup();
    let id = create_default_stream(&mut f, start, stop);

    f.set_time(start + DURATION / 2);
    f.withdraw(id, AMOUNT / 4).unwrap();
    f.cancel_stream(id).unwrap();

    // sender got AMOUNT/2 back (unstreamed portion)
    let expected_sender = AMOUNT * 10 - AMOUNT + AMOUNT / 2;
    assert_eq!(f.balance(&f.sender), expected_sender);

    // receiver has withdrawn AMOUNT/4, retained AMOUNT/4 still in contract
    assert_eq!(f.balance(&f.receiver), AMOUNT / 4);
    assert_eq!(f.withdrawable_balance(id).unwrap(), AMOUNT / 4);

    // contract holds the retained amount only
    assert_eq!(f.balance(&f.contract_addr), AMOUNT / 4);
}

#[test]
fn invariant_cancel_then_full_withdraw_empties_contract() {
    let (mut f, _now, start, stop) = setup();
    let id = create_default_stream(&mut f, start, stop);

    f.set_time(start + DURATION / 2);
    f.cancel_stream(id).unwrap();

    let retained = f.withdrawable_balance(id).unwrap();
    f.withdraw(id, retained).unwrap();

    assert_eq!(f.balance(&f.contract_addr), 0);
}

#[test]
fn invariant_withdraw_full_at_stop_time() {
    let (mut f, _now, start, stop) = setup();
    let id = create_default_stream(&mut f, start, stop);

    f.set_time(stop);
    assert_eq!(f.withdrawable_balance(id).unwrap(), AMOUNT);
    f.withdraw(id, AMOUNT).unwrap();

    assert_eq!(f.balance(&f.contract_addr), 0);
    assert_eq!(f.balance(&f.receiver), AMOUNT);
}

#[test]
fn invariant_balance_never_negative() {
    let (mut f, now, start, stop) = setup();
    let id = create_default_stream(&mut f, start, stop);

    let time_points = [
        now,
        start - 1,
        start,
        start + DURATION / 4,
        start + DURATION / 2,
        start + (DURATION * 3 / 4),
        stop,
        stop + 1_000,
    ];

    for &t in &time_points {
        f.set_time(t);
        let bal = f.withdrawable_balance(id).unwrap();
        assert!(bal >= 0, "balance was negative ({bal}) at t={t}");
    }
}

#[test]
fn invariant_withdrawn_amount_monotonic() {
    let (mut f, _now, start, stop) = setup();
    let id = create_default_stream(&mut f, start, stop);

    f.set_time(stop);

    // AMOUNT / 5 = 200_000 — divides evenly
    let chunk = AMOUNT / 5;
    let mut total_withdrawn = 0i128;

    for _ in 0..5 {
        f.withdraw(id, chunk).unwrap();
        total_withdrawn += chunk;
        let available = f.withdrawable_balance(id).unwrap();
        assert_eq!(available, AMOUNT - total_withdrawn);
        assert!(available >= 0);
    }

    assert_eq!(total_withdrawn, AMOUNT);
    assert_eq!(f.balance(&f.receiver), AMOUNT);
}

#[test]
fn invariant_no_tokens_created_or_destroyed() {
    let (mut f, _now, start, stop) = setup();
    let id = create_default_stream(&mut f, start, stop);

    f.set_time(start + DURATION / 3);

    let available = f.withdrawable_balance(id).unwrap();
    f.withdraw(id, available).unwrap();
    f.cancel_stream(id).unwrap();

    let total = f.balance(&f.sender) + f.balance(&f.receiver) + f.balance(&f.contract_addr);

    assert_eq!(total, AMOUNT * 10, "token conservation violated: total={total}");
}
