//! A counting view of the calendar, and the year-long law of `tick`.
//!
//! Each well-formed calendar instant maps to its ordinal second within
//! its year. One tick moves that ordinal up by exactly one, and a whole
//! year's worth of ticks lands on the first second of the next year.

use vstd::prelude::*;

use crate::prefs::Date;
use crate::prefs::date_wf;
use crate::prefs::spec_days_in_month;
use crate::prefs::spec_is_leap_year;
use crate::prefs::spec_next_second;

verus! {

/// A calendar instant that is well-formed and whose day also fits the
/// current month, as every instant reached by ticking alone does.
pub open spec fn date_strict(d: Date) -> bool {
    date_wf(d) && d.3 <= spec_days_in_month(d.4, d.5)
}

/// Days of year `y` that lie before month `m`.
pub open spec fn spec_days_before_month(m: u8, y: u16) -> int
    decreases m,
{
    if m <= 1 {
        0
    } else {
        spec_days_before_month((m - 1) as u8, y) + spec_days_in_month((m - 1) as u8, y)
    }
}

/// The ordinal of instant `d` within its year, counted in seconds from
/// the year's first second.
pub open spec fn spec_second_of_year(d: Date) -> int {
    (spec_days_before_month(d.4, d.5) + d.3 - 1) * 86400 + d.2 * 3600 + d.1 * 60 + d.0
}

/// The number of seconds in year `y`.
pub open spec fn spec_seconds_in_year(y: u16) -> int {
    if spec_is_leap_year(y) {
        31_622_400
    } else {
        31_536_000
    }
}

/// Days before a month never shrink as the month grows.
proof fn lemma_days_before_month_monotonic(m1: u8, m2: u8, y: u16)
    requires
        m1 <= m2,
    ensures
        spec_days_before_month(m1, y) <= spec_days_before_month(m2, y),
    decreases m2,
{
    if m1 < m2 && m2 > 1 {
        lemma_days_before_month_monotonic(m1, (m2 - 1) as u8, y);
    }
}

/// The whole year holds as many days as stand before a thirteenth month.
proof fn lemma_days_of_year(y: u16)
    ensures
        spec_days_before_month(13, y) * 86400 == spec_seconds_in_year(y),
{
    reveal_with_fuel(spec_days_before_month, 13);
}

/// One tick within the year moves the instant's ordinal up by exactly
/// one, keeps the year, and keeps the instant strictly well-formed.
proof fn lemma_tick_increments(d: Date)
    requires
        date_strict(d),
        spec_second_of_year(d) + 1 < spec_seconds_in_year(d.5),
    ensures
        spec_next_second(d).5 == d.5,
        date_strict(spec_next_second(d)),
        spec_second_of_year(spec_next_second(d)) == spec_second_of_year(d) + 1,
{
    lemma_days_of_year(d.5);
    if d.0 == 59 && d.1 == 59 && d.2 == 23 {
        let dim = spec_days_in_month(d.4, d.5);
        assert(spec_days_before_month((d.4 + 1) as u8, d.5) == spec_days_before_month(d.4, d.5)
            + dim);
        if d.3 >= dim && d.4 == 12 {
            assert(spec_days_before_month(13, d.5) == spec_days_before_month(12, d.5)
                + spec_days_in_month(12, d.5));
            assert(false);
        }
    }
}

/// The calendar after `n` ticks from `d`.
pub open spec fn spec_tick_n(d: Date, n: nat) -> Date
    decreases n,
{
    if n == 0 {
        d
    } else {
        spec_next_second(spec_tick_n(d, (n - 1) as nat))
    }
}

/// As long as the ticks stay inside the year, `n` of them move the
/// instant's ordinal up by exactly `n`.
proof fn lemma_tick_n_within_year(d: Date, n: nat)
    requires
        date_strict(d),
        spec_second_of_year(d) + n < spec_seconds_in_year(d.5),
    ensures
        spec_tick_n(d, n).5 == d.5,
        date_strict(spec_tick_n(d, n)),
        spec_second_of_year(spec_tick_n(d, n)) == spec_second_of_year(d) + n,
    decreases n,
{
    if n > 0 {
        lemma_tick_n_within_year(d, (n - 1) as nat);
        lemma_tick_increments(spec_tick_n(d, (n - 1) as nat));
    }
}

/// The only strictly well-formed instant at the last ordinal of its year
/// is 23:59:59 on the 31st of month 12.
proof fn lemma_last_second_of_year(d: Date)
    requires
        date_strict(d),
        spec_second_of_year(d) == spec_seconds_in_year(d.5) - 1,
    ensures
        d == (59u8, 59u8, 23u8, 31u8, 12u8, d.5),
{
    lemma_days_of_year(d.5);
    assert(spec_days_before_month(13, d.5) == spec_days_before_month(12, d.5)
        + spec_days_in_month(12, d.5));
    if d.4 <= 11 {
        lemma_days_before_month_monotonic((d.4 + 1) as u8, 12, d.5);
        assert(spec_days_before_month((d.4 + 1) as u8, d.5) == spec_days_before_month(d.4, d.5)
            + spec_days_in_month(d.4, d.5));
        assert(false);
    }
}

/// A year of ticks: from the first second of any year, one year's worth
/// of seconds — 31,536,000, or 31,622,400 in a leap year — lands exactly
/// on the first second of the next year.
pub proof fn lemma_tick_full_year(y: u16)
    requires
        y < 65535,
    ensures
        spec_tick_n((0u8, 0u8, 0u8, 1u8, 1u8, y), spec_seconds_in_year(y) as nat) == ((
            0u8,
            0u8,
            0u8,
            1u8,
            1u8,
            (y + 1) as u16,
        )),
{
    let d0 = (0u8, 0u8, 0u8, 1u8, 1u8, y);
    let n1 = (spec_seconds_in_year(y) - 1) as nat;
    lemma_tick_n_within_year(d0, n1);
    let dlast = spec_tick_n(d0, n1);
    lemma_last_second_of_year(dlast);
    assert(spec_tick_n(d0, spec_seconds_in_year(y) as nat) == spec_next_second(dlast));
}

} // verus!
