//! Minutes until a departure.
//!
//! A departure timestamp arrives in epoch milliseconds; the caller
//! supplies the current time in the same unit. The timestamp is first
//! truncated to whole seconds, as the provider's clock works in
//! seconds; the difference to now is then truncated to whole minutes,
//! rounding toward zero. Anything under one minute away — including
//! departures already gone — shows as "now".

use vstd::prelude::*;

use vstd::arithmetic::div_mod::{
    lemma_basic_div, lemma_div_is_ordered, lemma_div_nonincreasing, lemma_div_pos_is_pos,
    lemma_fundamental_div_mod,
};

verus! {

/// Division truncating toward zero, as the machine division of signed
/// integers does.
pub open spec fn trunc_div(a: int, b: int) -> int
    recommends
        b > 0,
{
    if a >= 0 {
        a / b
    } else {
        -((-a) / b)
    }
}

/// Whole minutes from `now_ms` until the departure stamped `time_ms`,
/// both in epoch milliseconds: the stamp truncated to whole seconds,
/// minus now, truncated to whole seconds and then to whole minutes,
/// each step rounding toward zero. Negative when the departure lies in
/// the past.
pub open spec fn spec_eta_minutes(time_ms: int, now_ms: int) -> int {
    let secs = trunc_div(time_ms, 1000);
    let diff_ms = secs * 1000 - now_ms;
    trunc_div(trunc_div(diff_ms, 1000), 60)
}

/// How far away a departure is: a whole number of minutes, or due now
/// (under a minute away or already gone).
#[derive(Clone, Copy, PartialEq, Eq, Structural, Debug)]
pub enum ETA {
    Minutes(i64),
    Now,
}

/// Nonnegative division by a positive constant gives a nonnegative,
/// no larger result.
proof fn lemma_div_shrinks(a: int, b: int)
    requires
        a >= 0,
        b >= 1,
    ensures
        0 <= a / b <= a,
{
    lemma_div_pos_is_pos(a, b);
    lemma_div_nonincreasing(a, b);
}

/// The ETA of the departure stamped `time` (epoch milliseconds), seen
/// from the current time `now_ms`: the whole-minute difference where it
/// reaches one minute, and `Now` where the departure is nearer or past.
pub fn get_minutes(time: i64, now_ms: i64) -> (r: ETA)
    requires
        now_ms >= 0,
    ensures
        ({
            let m = spec_eta_minutes(time as int, now_ms as int);
            if m < 1 {
                r == ETA::Now
            } else {
                r == ETA::Minutes(m as i64)
            }
        }),
{
    proof {
        lemma_fundamental_div_mod(time as int, 1000);
        lemma_fundamental_div_mod(-(time as int), 1000);
    }
    if time < 0 {
        proof {
            let secs = trunc_div(time as int, 1000);
            lemma_div_shrinks(-(time as int), 1000);
            assert(secs <= 0);
            let diff_ms = secs * 1000 - now_ms;
            assert(diff_ms <= 0);
            if diff_ms >= 0 {
                lemma_basic_div(diff_ms, 1000);
            } else {
                lemma_div_shrinks(-diff_ms, 1000);
            }
            let t1 = trunc_div(diff_ms, 1000);
            assert(t1 <= 0);
            if t1 >= 0 {
                lemma_basic_div(t1, 60);
            } else {
                lemma_div_shrinks(-t1, 60);
            }
            assert(spec_eta_minutes(time as int, now_ms as int) <= 0);
        }
        return ETA::Now;
    }
    let secs: u64 = (time as u64) / 1000;
    proof {
        assert(secs == trunc_div(time as int, 1000));
        assert(1000 * (time as int / 1000) <= time as int);
    }
    let future_ms: u64 = secs * 1000;
    let now_u: u64 = now_ms as u64;
    let ghost diff_ms = future_ms as int - now_u as int;
    if future_ms < now_u + 60000 {
        proof {
            if diff_ms >= 0 {
                lemma_div_is_ordered(diff_ms, 59999, 1000);
                lemma_fundamental_div_mod(59999, 1000);
                lemma_div_shrinks(diff_ms, 1000);
                assert(trunc_div(diff_ms, 1000) <= 59);
                lemma_basic_div(trunc_div(diff_ms, 1000), 60);
            } else {
                lemma_div_shrinks(-diff_ms, 1000);
                let t1 = trunc_div(diff_ms, 1000);
                assert(t1 <= 0);
                if t1 >= 0 {
                    lemma_basic_div(t1, 60);
                } else {
                    lemma_div_shrinks(-t1, 60);
                }
            }
            assert(spec_eta_minutes(time as int, now_ms as int) < 1);
        }
        ETA::Now
    } else {
        let diff: u64 = future_ms - now_u;
        let t1: u64 = diff / 1000;
        let mins: u64 = t1 / 60;
        proof {
            assert(diff == diff_ms);
            lemma_div_is_ordered(60000, diff_ms, 1000);
            lemma_fundamental_div_mod(60000, 1000);
            assert(t1 >= 60);
            lemma_div_is_ordered(60, t1 as int, 60);
            lemma_fundamental_div_mod(60, 60);
            assert(mins >= 1);
            lemma_div_shrinks(diff_ms, 1000);
            lemma_div_shrinks(t1 as int, 60);
            assert(mins == spec_eta_minutes(time as int, now_ms as int));
            assert(mins <= diff);
        }
        ETA::Minutes(mins as i64)
    }
}

} // verus!
