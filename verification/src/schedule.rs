//! The release schedule: how many tokens a linear stream has released by a
//! given ledger time.

use vstd::arithmetic::div_mod::{lemma_div_is_ordered, lemma_div_multiples_vanish};
use vstd::arithmetic::mul::lemma_mul_inequality;
use vstd::prelude::*;

verus! {

/// `x` held to the range of `i128`, as saturating arithmetic does.
pub open spec fn clamp_i128(x: int) -> int {
    if x > i128::MAX {
        i128::MAX as int
    } else if x < i128::MIN {
        i128::MIN as int
    } else {
        x
    }
}

/// `i128::saturating_mul`: the product held to the range of `i128`, as std
/// documents ("saturating at the numeric bounds instead of overflowing").
pub assume_specification[ <i128>::saturating_mul ](x: i128, y: i128) -> (r: i128)
    ensures
        r == clamp_i128(x * y),
;

/// Integer division rounding toward zero, as Rust's `/` does (`d > 0`).
pub open spec fn div_toward_zero(a: int, d: int) -> int {
    if a >= 0 {
        a / d
    } else {
        -((-a) / d)
    }
}

/// Seconds of the window `[start, stop]` that have passed at time `now`.
pub open spec fn elapsed_secs(start: int, stop: int, now: int) -> int {
    if now <= start {
        0
    } else if now <= stop {
        now - start
    } else {
        stop - start
    }
}

/// Tokens released by time `now` out of `total`, streamed linearly over
/// `[start, stop]`: nothing up to and including `start`, the whole total from
/// `stop` on, and in between `total * elapsed / duration`, where the product
/// saturates at the bounds of `i128` and the quotient rounds toward zero (the
/// dust stays in escrow until `stop`).
pub open spec fn released(total: int, start: int, stop: int, now: int) -> int {
    if now <= start {
        0
    } else if now >= stop {
        total
    } else {
        div_toward_zero(clamp_i128(total * elapsed_secs(start, stop, now)), stop - start)
    }
}

/// Computes `released(total, start, stop, now)`.
pub fn streamed_amount(total: i128, start: u64, stop: u64, now: u64) -> (r: i128)
    requires
        now > start ==> start < stop,
    ensures
        r == released(total as int, start as int, stop as int, now as int),
{
    if now <= start {
        return 0;
    }
    if now >= stop {
        return total;
    }
    let elapsed: i128 = now.min(stop).saturating_sub(start) as i128;
    let duration: i128 = (stop - start) as i128;
    total.saturating_mul(elapsed) / duration
}

/// The released amount lies between zero and the total, whatever the sign of
/// the total.
pub proof fn lemma_released_between_zero_and_total(total: int, start: int, stop: int, now: int)
    requires
        i128::MIN <= total <= i128::MAX,
        start < stop,
    ensures
        total >= 0 ==> 0 <= released(total, start, stop, now) <= total,
        total < 0 ==> total <= released(total, start, stop, now) <= 0,
{
    if now > start && now < stop {
        let e = elapsed_secs(start, stop, now);
        let d = stop - start;
        let a = clamp_i128(total * e);
        if total >= 0 {
            lemma_mul_inequality(0, e, total);
            lemma_mul_inequality(e, d, total);
            assert(0 <= total * e);
            assert(e * total <= d * total);
            assert(0 <= a <= total * d) by (nonlinear_arith)
                requires
                    a == clamp_i128(total * e),
                    0 <= total * e,
                    e * total <= d * total,
            ;
            lemma_div_is_ordered(0, a, d);
            lemma_div_is_ordered(a, d * total, d);
            lemma_div_multiples_vanish(total, d);
        } else {
            let m = -total;
            lemma_mul_inequality(0, e, m);
            lemma_mul_inequality(e, d, m);
            assert(total * d <= a <= 0 && -a <= d * m) by (nonlinear_arith)
                requires
                    a == clamp_i128(total * e),
                    m == -total,
                    0 <= e * m,
                    e * m <= d * m,
            ;
            lemma_div_is_ordered(0, -a, d);
            lemma_div_is_ordered(-a, d * m, d);
            lemma_div_multiples_vanish(m, d);
        }
    }
}

} // verus!
