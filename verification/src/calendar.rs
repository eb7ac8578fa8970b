//! Timezone-correct day-of-week arithmetic for the environment factor.
//!
//! The engine marks trades made on a local Friday, Saturday or Sunday with a
//! weekend multiplier.  Timestamps arrive as UTC milliseconds together with a
//! local timezone offset in seconds; the Unix epoch fell on a Thursday, hence
//! the `+ 4` correction.  All divisions are floored, so the mapping is
//! correct for times before the epoch as well.

use vstd::prelude::*;

verus! {

use vstd::arithmetic::div_mod::lemma_fundamental_div_mod;
use vstd::arithmetic::div_mod::lemma_fundamental_div_mod_converse;

/// Milliseconds in one day.
pub const MS_PER_DAY: i64 = 86_400_000;

/// Local-time milliseconds since the epoch: UTC milliseconds shifted by the
/// timezone offset.
pub open spec fn local_millis(ts_ms: i64, tz_offset_s: i32) -> int {
    ts_ms + 1000 * (tz_offset_s as int)
}

/// Number of whole local days since the epoch (floored, so times before the
/// epoch round toward minus infinity).
pub open spec fn local_day_index(ts_ms: i64, tz_offset_s: i32) -> int {
    local_millis(ts_ms, tz_offset_s) / (MS_PER_DAY as int)
}

/// Day of the local week: 0 = Sunday .. 6 = Saturday.  Day 0 of the epoch
/// was a Thursday (= 4).
pub open spec fn day_of_week_of(ts_ms: i64, tz_offset_s: i32) -> int {
    (local_day_index(ts_ms, tz_offset_s) + 4) % 7
}

/// A local Friday, Saturday or Sunday counts as weekend for the market.
pub open spec fn is_weekend_of(ts_ms: i64, tz_offset_s: i32) -> bool {
    day_of_week_of(ts_ms, tz_offset_s) >= 5
}

/// The local time fits in an `i64` millisecond count.
pub open spec fn local_millis_in_range(ts_ms: i64, tz_offset_s: i32) -> bool {
    i64::MIN < ts_ms + 1000 * (tz_offset_s as int) <= i64::MAX
}

/// Floored division by a positive divisor, exact also for negative dividends.
fn floor_div(x: i64, d: i64) -> (q: i64)
    requires
        0 < d,
        i64::MIN < x,
    ensures
        q == (x as int) / (d as int),
{
    let du: u64 = d as u64;
    if x >= 0 {
        let xu: u64 = x as u64;
        let qu: u64 = xu / du;
        proof {
            lemma_fundamental_div_mod(xu as int, du as int);
            assert(qu <= xu) by (nonlinear_arith)
                requires
                    xu == du * qu + (xu as int % du as int),
                    xu as int % du as int >= 0,
                    du >= 1,
                    qu >= 0,
            ;
            lemma_fundamental_div_mod_converse(
                x as int,
                d as int,
                qu as int,
                xu as int % du as int,
            );
        }
        qu as i64
    } else {
        let mag: u64 = (-x) as u64;
        let qm: u64 = mag / du;
        let rm: u64 = mag % du;
        proof {
            lemma_fundamental_div_mod(mag as int, du as int);
            assert(qm <= mag) by (nonlinear_arith)
                requires
                    mag == du * qm + rm,
                    rm >= 0,
                    du >= 1,
                    qm >= 0,
            ;
            assert(x == (-(qm as int)) * (du as int) + (-(rm as int))) by (nonlinear_arith)
                requires
                    mag == du * qm + rm,
                    x == -(mag as int),
            ;
            if rm == 0 {
                lemma_fundamental_div_mod_converse(x as int, d as int, -(qm as int), 0);
            } else {
                assert(x == (-(qm as int) - 1) * (du as int) + (du - rm)) by (nonlinear_arith)
                    requires
                        x == (-(qm as int)) * (du as int) - rm,
                ;
                lemma_fundamental_div_mod_converse(
                    x as int,
                    d as int,
                    -(qm as int) - 1,
                    d - rm,
                );
            }
        }
        if rm == 0 {
            -(qm as i64)
        } else {
            -(qm as i64) - 1
        }
    }
}

/// Day of the local week, 0 = Sunday .. 6 = Saturday, from a UTC millisecond
/// timestamp and a timezone offset in seconds.
pub fn day_of_week(ts_ms: i64, tz_offset_s: i32) -> (dow: u8)
    requires
        local_millis_in_range(ts_ms, tz_offset_s),
    ensures
        dow == day_of_week_of(ts_ms, tz_offset_s),
        dow <= 6,
{
    let local: i64 = ts_ms + (tz_offset_s as i64) * 1000;
    let day_index: i64 = floor_div(local, MS_PER_DAY);
    let shifted: i64 = day_index + 4;
    let week: i64 = floor_div(shifted, 7);
    proof {
        lemma_fundamental_div_mod(shifted as int, 7int);
        vstd::arithmetic::div_mod::lemma_mod_bound(shifted as int, 7int);
    }
    let dow: i64 = shifted - 7 * week;
    dow as u8
}

/// Whether the local day of week is Friday, Saturday or Sunday.
pub fn is_weekend(ts_ms: i64, tz_offset_s: i32) -> (w: bool)
    requires
        local_millis_in_range(ts_ms, tz_offset_s),
    ensures
        w == is_weekend_of(ts_ms, tz_offset_s),
{
    day_of_week(ts_ms, tz_offset_s) >= 5
}

/// Law: the local day of the week repeats every seven days — two timestamps
/// whose local times lie exactly one week apart fall on the same weekday.
pub proof fn lemma_day_of_week_periodic(a: i64, b: i64, tz_offset_s: i32)
    requires
        local_millis(b, tz_offset_s) == local_millis(a, tz_offset_s) + 7 * (MS_PER_DAY as int),
    ensures
        day_of_week_of(b, tz_offset_s) == day_of_week_of(a, tz_offset_s),
{
    let d = MS_PER_DAY as int;
    let la = local_millis(a, tz_offset_s);
    let q = la / d;
    let r = la % d;
    lemma_fundamental_div_mod(la, d);
    vstd::arithmetic::div_mod::lemma_mod_bound(la, d);
    assert(local_millis(b, tz_offset_s) == d * (q + 7) + r) by {
        assert(d * (q + 7) == d * q + d * 7) by (nonlinear_arith);
    }
    vstd::arithmetic::div_mod::lemma_div_multiples_vanish_fancy(q + 7, r, d);
    vstd::arithmetic::div_mod::lemma_mod_multiples_vanish(1, q + 4, 7);
}

} // verus!
