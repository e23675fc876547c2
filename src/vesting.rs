use vstd::prelude::*;
use crate::error::ContractError;
use crate::state::Stream;

verus! {

/// The part of `s.amount` that has vested at time `now`: nothing before the
/// window opens, everything once it has closed, and in between the elapsed
/// share of the window times the amount, rounded down.
pub open spec fn vested(s: Stream, now: u64) -> int {
    if now <= s.start_time {
        0
    } else if now >= s.end_time {
        s.amount as int
    } else {
        ((now - s.start_time) * s.amount) / (s.end_time - s.start_time as int)
    }
}

/// What vested at `now` and has not been withdrawn yet (never negative).
pub open spec fn claimable_at(s: Stream, now: u64) -> int {
    if vested(s, now) > s.claimed_amount {
        vested(s, now) - s.claimed_amount
    } else {
        0
    }
}

/// Whether computing the vested share at `now` needs a product beyond `u128`.
pub open spec fn vesting_overflows(s: Stream, now: u64) -> bool {
    &&& s.start_time < now < s.end_time
    &&& (now - s.start_time) * s.amount > u128::MAX
}

/// Within an open window the vested share never exceeds the amount.
pub proof fn lemma_vested_bounded(s: Stream, now: u64)
    requires
        s.start_time < s.end_time,
    ensures
        0 <= vested(s, now) <= s.amount,
{
    if s.start_time < now < s.end_time {
        let e = (now - s.start_time) as int;
        let d = (s.end_time - s.start_time) as int;
        let a = s.amount as int;
        assert(0 <= e * a) by (nonlinear_arith)
            requires 0 < e, 0 <= a;
        assert(e * a <= d * a) by (nonlinear_arith)
            requires 0 < e < d, 0 <= a;
        vstd::arithmetic::div_mod::lemma_div_is_ordered(e * a, d * a, d);
        vstd::arithmetic::div_mod::lemma_div_multiples_vanish(a, d);
        vstd::arithmetic::div_mod::lemma_div_pos_is_pos(e * a, d);
    }
}

/// The vested share does not shrink as time goes on.
pub proof fn lemma_vested_monotonic(s: Stream, t1: u64, t2: u64)
    requires
        s.start_time < s.end_time,
        t1 <= t2,
    ensures
        vested(s, t1) <= vested(s, t2),
{
    lemma_vested_bounded(s, t1);
    lemma_vested_bounded(s, t2);
    if s.start_time < t1 && t2 < s.end_time {
        let d = (s.end_time - s.start_time) as int;
        let a = s.amount as int;
        let e1 = (t1 - s.start_time) as int;
        let e2 = (t2 - s.start_time) as int;
        assert(e1 * a <= e2 * a) by (nonlinear_arith)
            requires e1 <= e2, 0 <= a;
        vstd::arithmetic::div_mod::lemma_div_is_ordered(e1 * a, e2 * a, d);
    }
}

/// The amount that the recipient of `stream` may withdraw at `now`.
/// Once the window has closed the whole amount counts as vested; a product
/// that does not fit in `u128` is reported, never wrapped.
pub fn claimable(stream: &Stream, now: u64) -> (r: Result<u128, ContractError>)
    requires
        stream.start_time <= now,
        stream.start_time < stream.end_time,
    ensures
        r == if vesting_overflows(*stream, now) {
            Err::<u128, ContractError>(ContractError::ArithmeticOverflow)
        } else {
            Ok::<u128, ContractError>(claimable_at(*stream, now) as u128)
        },
{
    proof {
        lemma_vested_bounded(*stream, now);
    }
    let vested_total: u128;
    if now == stream.start_time {
        vested_total = 0;
    } else if now >= stream.end_time {
        vested_total = stream.amount;
    } else {
        let elapsed: u128 = (now - stream.start_time) as u128;
        let duration: u128 = (stream.end_time - stream.start_time) as u128;
        match elapsed.checked_mul(stream.amount) {
            None => {
                return Err(ContractError::ArithmeticOverflow);
            },
            Some(product) => {
                vested_total = product / duration;
            },
        }
    }
    if vested_total > stream.claimed_amount {
        Ok(vested_total - stream.claimed_amount)
    } else {
        Ok(0)
    }
}

} // verus!
