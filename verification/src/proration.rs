//! Proration arithmetic.
//!
//! At cancellation, the part of the consumed amount that is still owed to
//! the user is the remaining-time fraction of the validity window, scaled
//! by a percentage (the refund keeps `100 - fee` percent of it). All of it
//! is exact integer arithmetic, rounding down: first the remaining time is
//! scaled by the percentage, then the consumed amount is prorated by the
//! scaled share of the window.

use vstd::prelude::*;

use vstd::arithmetic::div_mod::lemma_div_by_multiple;
use vstd::arithmetic::div_mod::lemma_div_is_ordered;
use vstd::arithmetic::div_mod::lemma_div_of0;
use vstd::arithmetic::div_mod::lemma_div_pos_is_pos;

verus! {

/// The still-remaining part of the validity window at time `now`: the time
/// from `now` to `valid_till`, clamped between zero (the window is over)
/// and the whole window from `last_verified` to `valid_till`.
pub open spec fn remaining_in_window(valid_till: int, last_verified: int, now: int) -> int {
    let window = valid_till - last_verified;
    let rem = valid_till - now;
    if rem <= 0 {
        0
    } else if rem >= window {
        window
    } else {
        rem
    }
}

/// The prorated share of `used` at time `now`: `used` scaled by
/// `percent_num / percent_den` of the fraction of the validity window that
/// still remains, rounding down. A window that is empty or inverted
/// (`valid_till <= last_verified`) yields zero.
pub open spec fn prorated_share(
    used: int,
    percent_num: int,
    percent_den: int,
    valid_till: int,
    last_verified: int,
    now: int,
) -> int {
    let window = valid_till - last_verified;
    if window <= 0 {
        0
    } else {
        let rem = remaining_in_window(valid_till, last_verified, now);
        (rem * percent_num / percent_den) * used / window
    }
}

/// Scaling a non-negative quantity by a fraction of at most one, rounding
/// down, never exceeds the quantity and never goes below zero.
proof fn lemma_scale_by_fraction_le(a: int, n: int, d: int)
    requires
        0 <= a,
        0 <= n <= d,
        0 < d,
    ensures
        0 <= a * n / d <= a,
{
    assert(0 <= a * n && a * n <= a * d) by (nonlinear_arith)
        requires
            0 <= a,
            0 <= n,
            n <= d,
    ;
    lemma_div_is_ordered(a * n, a * d, d);
    lemma_div_by_multiple(a, d);
    if a * n > 0 {
        lemma_div_pos_is_pos(a * n, d);
    } else {
        assert(a * n == 0);
    }
}

/// The prorated share of a non-negative amount lies between zero and the
/// amount itself, and is zero once the window has ended.
pub proof fn lemma_prorated_share_bounds(
    used: int,
    percent_num: int,
    percent_den: int,
    valid_till: int,
    last_verified: int,
    now: int,
)
    requires
        0 <= used,
        0 < percent_den,
        0 <= percent_num <= percent_den,
    ensures
        0 <= prorated_share(used, percent_num, percent_den, valid_till, last_verified, now)
            <= used,
        valid_till <= now ==> prorated_share(
            used,
            percent_num,
            percent_den,
            valid_till,
            last_verified,
            now,
        ) == 0,
{
    let window = valid_till - last_verified;
    if window > 0 {
        let rem = remaining_in_window(valid_till, last_verified, now);
        let scaled = rem * percent_num / percent_den;
        lemma_scale_by_fraction_le(rem, percent_num, percent_den);
        assert(scaled * used == used * scaled) by (nonlinear_arith);
        lemma_scale_by_fraction_le(used, scaled, window);
        if valid_till <= now {
            assert(rem == 0);
            assert(0 * percent_num == 0);
            lemma_div_of0(percent_den);
            assert(scaled == 0);
            assert(0 * used == 0);
            lemma_div_of0(window);
        }
    }
}

/// The prorated share, as `prorated_share` states it. The share never
/// exceeds the consumed amount itself.
pub fn prorated_amount(
    used: u64,
    percent_num: u32,
    percent_den: u32,
    valid_till: i64,
    last_verified: i64,
    now: i64,
) -> (r: u64)
    requires
        0 < percent_den,
        percent_num <= percent_den,
    ensures
        r == prorated_share(
            used as int,
            percent_num as int,
            percent_den as int,
            valid_till as int,
            last_verified as int,
            now as int,
        ),
        r <= used,
{
    let window: i128 = valid_till as i128 - last_verified as i128;
    if window <= 0 {
        return 0;
    }
    let rem_raw: i128 = valid_till as i128 - now as i128;
    let rem: i128 = if rem_raw <= 0 {
        0
    } else if rem_raw >= window {
        window
    } else {
        rem_raw
    };
    assert(rem == remaining_in_window(valid_till as int, last_verified as int, now as int));
    assert((rem as int) * (percent_num as int) <= 0xffff_ffff_ffff_ffff * 0xffff_ffff)
        by (nonlinear_arith)
        requires
            0 <= rem <= 0xffff_ffff_ffff_ffff,
            percent_num <= 0xffff_ffff,
    ;
    let scaled: u128 = (rem as u128) * (percent_num as u128) / (percent_den as u128);
    proof {
        lemma_scale_by_fraction_le(rem as int, percent_num as int, percent_den as int);
    }
    assert(scaled <= rem);
    assert((scaled as int) * (used as int) <= 0xffff_ffff_ffff_ffff * 0xffff_ffff_ffff_ffff
        && (scaled as int) * (used as int) <= (window as int) * (used as int))
        by (nonlinear_arith)
        requires
            0 <= scaled <= 0xffff_ffff_ffff_ffff,
            0 <= used <= 0xffff_ffff_ffff_ffff,
            scaled <= window,
    ;
    let share: u128 = scaled * (used as u128) / (window as u128);
    proof {
        lemma_div_is_ordered(
            (scaled * (used as u128)) as int,
            (window as int) * (used as int),
            window as int,
        );
        lemma_div_by_multiple(used as int, window as int);
        assert((window as int) * (used as int) == (used as int) * (window as int))
            by (nonlinear_arith);
        if scaled * (used as int) > 0 {
            lemma_div_pos_is_pos((scaled * (used as u128)) as int, window as int);
        }
    }
    assert(share <= used);
    share as u64
}

} // verus!
