//! Reward arithmetic: the time a stake has lasted, whether the freeze period
//! is over, in whole days, and the points that the time has earned.

use vstd::prelude::*;

verus! {

/// Seconds in one day.
pub const SECONDS_PER_DAY: u64 = 86_400;

/// The whole days contained in a span of seconds, rounded towards minus
/// infinity: a span that ends before it starts holds fewer than zero days.
pub open spec fn whole_days(seconds: int) -> int {
    seconds / 86_400
}

/// Whether a stake that has lasted `elapsed_seconds` may be lifted under a
/// freeze period of `freeze_period` seconds. Both are taken in whole days.
pub open spec fn freeze_elapsed(elapsed_seconds: int, freeze_period: int) -> bool {
    whole_days(elapsed_seconds) >= whole_days(freeze_period)
}

/// Points earned over `elapsed_seconds` at `points_per_stake` points a day.
/// The product is formed first and divided once, so that a part of a day
/// earns its share of the daily rate.
pub open spec fn points_awarded(elapsed_seconds: int, points_per_stake: int) -> int {
    (elapsed_seconds * points_per_stake) / 86_400
}

/// Seconds from `staked_at` to `now`; `None` when the clock reads earlier
/// than the moment of staking.
pub fn elapsed_between(staked_at: i64, now: i64) -> (elapsed: Option<u64>)
    ensures
        now < staked_at ==> elapsed is None,
        now >= staked_at ==> elapsed == Some((now - staked_at) as u64),
{
    if now < staked_at {
        None
    } else {
        let span: i128 = now as i128 - staked_at as i128;
        Some(span as u64)
    }
}

/// The exact value of [`freeze_elapsed`] on a span that did not run
/// backwards.
pub fn is_freeze_elapsed(elapsed_seconds: u64, freeze_period: u32) -> (elapsed: bool)
    ensures
        elapsed == freeze_elapsed(elapsed_seconds as int, freeze_period as int),
{
    elapsed_seconds / SECONDS_PER_DAY >= freeze_period as u64 / SECONDS_PER_DAY
}

/// The exact value of [`points_awarded`], which always fits the result.
pub fn award_points(elapsed_seconds: u64, points_per_stake: u32) -> (points: u128)
    ensures
        points == points_awarded(elapsed_seconds as int, points_per_stake as int),
{
    let span: u128 = elapsed_seconds as u128;
    let rate: u128 = points_per_stake as u128;
    assert(span * rate <= 0xffff_ffff_ffff_ffff * 0xffff_ffff) by (nonlinear_arith)
        requires
            span <= 0xffff_ffff_ffff_ffff,
            rate <= 0xffff_ffff,
    ;
    span * rate / (SECONDS_PER_DAY as u128)
}

/// A stake that has lasted no time has earned nothing.
pub proof fn lemma_no_time_no_points(points_per_stake: int)
    ensures
        points_awarded(0, points_per_stake) == 0,
{
    assert(0 * points_per_stake == 0) by (nonlinear_arith);
}

/// Each full day earns exactly the daily rate: `days` whole days earn
/// `days` times `points_per_stake`, and one day earns `points_per_stake`.
pub proof fn lemma_full_days_earn_rate(days: int, points_per_stake: int)
    ensures
        points_awarded(days * 86_400, points_per_stake) == days * points_per_stake,
        points_awarded(86_400, points_per_stake) == points_per_stake,
{
    assert((days * 86_400) * points_per_stake == (days * points_per_stake) * 86_400)
        by (nonlinear_arith);
    assert(86_400 * points_per_stake == points_per_stake * 86_400) by (nonlinear_arith);
}

/// The freeze period is over exactly from the first second of the day that
/// its whole days end on: one second earlier it is not, at that second and
/// ever after it is.
pub proof fn lemma_freeze_boundary(elapsed_seconds: int, freeze_period: int)
    ensures
        freeze_elapsed(elapsed_seconds, freeze_period) <==> elapsed_seconds >= whole_days(
            freeze_period,
        ) * 86_400,
        freeze_elapsed(whole_days(freeze_period) * 86_400, freeze_period),
        !freeze_elapsed(whole_days(freeze_period) * 86_400 - 1, freeze_period),
{
}

/// A longer stake never earns less.
pub proof fn lemma_points_grow_with_time(shorter: int, longer: int, points_per_stake: int)
    requires
        shorter <= longer,
        0 <= points_per_stake,
    ensures
        points_awarded(shorter, points_per_stake) <= points_awarded(longer, points_per_stake),
{
    assert(shorter * points_per_stake <= longer * points_per_stake) by (nonlinear_arith)
        requires
            shorter <= longer,
            0 <= points_per_stake,
    ;
}

/// Dividing once, after the product, never pays less than counting whole
/// days first would, and never a full daily rate more.
pub proof fn lemma_parts_of_days_count(elapsed_seconds: int, points_per_stake: int)
    requires
        0 <= elapsed_seconds,
        0 <= points_per_stake,
    ensures
        whole_days(elapsed_seconds) * points_per_stake <= points_awarded(
            elapsed_seconds,
            points_per_stake,
        ),
        points_awarded(elapsed_seconds, points_per_stake) < (whole_days(elapsed_seconds) + 1)
            * points_per_stake || points_per_stake == 0,
        0 <= points_awarded(elapsed_seconds, points_per_stake),
{
    let days = whole_days(elapsed_seconds);
    let rest = elapsed_seconds % 86_400;
    assert(elapsed_seconds == days * 86_400 + rest);
    assert(elapsed_seconds * points_per_stake == (days * points_per_stake) * 86_400 + rest
        * points_per_stake) by (nonlinear_arith)
        requires
            elapsed_seconds == days * 86_400 + rest,
    ;
    assert(0 <= rest * points_per_stake) by (nonlinear_arith)
        requires
            0 <= rest,
            0 <= points_per_stake,
    ;
    assert(rest * points_per_stake <= 86_399 * points_per_stake) by (nonlinear_arith)
        requires
            rest <= 86_399,
            0 <= points_per_stake,
    ;
    assert((days + 1) * points_per_stake == days * points_per_stake + points_per_stake)
        by (nonlinear_arith);
}

} // verus!
