//! Operator preferences and the wall-clock calendar.
//!
//! `Preferences` owns the temperature and humidity bands, the optional
//! daily watering window, and the calendar. The calendar is the tuple
//! `date = (second, minute, hour, day, month, year)`; it is advanced one
//! second at a time by [`Preferences::tick_time`] and written one field at
//! a time by the edit operations, which wrap each field within its own
//! range. Band edits are followed by a normalization step that restores
//! `low <= high` by swapping the pair.

use vstd::prelude::*;

use crate::text::push_decimal;
use crate::text::spec_decimal;

verus! {

/// The calendar as stored in `Preferences::date`:
/// `(second, minute, hour, day, month, year)`.
pub type Date = (u8, u8, u8, u8, u8, u16);

/// The Gregorian leap-year rule.
pub open spec fn spec_is_leap_year(year: u16) -> bool {
    year % 4 == 0 && (year % 100 != 0 || year % 400 == 0)
}

/// Number of days in a month (1..=12) of a given year.
pub open spec fn spec_days_in_month(month: u8, year: u16) -> u8 {
    if month == 2 {
        if spec_is_leap_year(year) { 29 } else { 28 }
    } else if month == 4 || month == 6 || month == 9 || month == 11 {
        30
    } else {
        31
    }
}

/// A calendar value every field of which is within its range.
///
/// The day is only bounded by 31, not by the current month's length:
/// an edit of the month deliberately does not re-validate a previously
/// chosen day, and the rollover in `tick_time` absorbs the excess at the
/// next midnight.
pub open spec fn date_wf(d: Date) -> bool {
    &&& d.0 < 60
    &&& d.1 < 60
    &&& d.2 < 24
    &&& 1 <= d.3 <= 31
    &&& 1 <= d.4 <= 12
}

/// The last representable instant; ticking past it would overflow the year.
pub open spec fn date_is_max(d: Date) -> bool {
    d == (59u8, 59u8, 23u8, 31u8, 12u8, 65535u16)
}

/// The calendar one second after `d`, with the full rollover cascade:
/// second -> minute -> hour -> day, then day/month normalization against
/// the month length, then month -> year.
pub open spec fn spec_next_second(d: Date) -> Date {
    if d.0 < 59 {
        ((d.0 + 1) as u8, d.1, d.2, d.3, d.4, d.5)
    } else if d.1 < 59 {
        (0u8, (d.1 + 1) as u8, d.2, d.3, d.4, d.5)
    } else if d.2 < 23 {
        (0u8, 0u8, (d.2 + 1) as u8, d.3, d.4, d.5)
    } else {
        let dim = spec_days_in_month(d.4, d.5);
        if d.3 < dim {
            (0u8, 0u8, 0u8, (d.3 + 1) as u8, d.4, d.5)
        } else {
            let day = (d.3 + 1 - dim) as u8;
            if d.4 < 12 {
                (0u8, 0u8, 0u8, day, (d.4 + 1) as u8, d.5)
            } else {
                (0u8, 0u8, 0u8, day, 1u8, (d.5 + 1) as u16)
            }
        }
    }
}

/// The calendar invariant survives a tick: from any well-formed calendar
/// that is not at the last representable second, the next second is
/// well-formed again, its day back under the new month's length whenever
/// the rollover ran.
pub proof fn lemma_next_second_preserves_wf(d: Date)
    requires
        date_wf(d),
        !date_is_max(d),
    ensures
        date_wf(spec_next_second(d)),
        d.0 == 59 && d.1 == 59 && d.2 == 23 ==> spec_next_second(d).3 <= spec_days_in_month(
            spec_next_second(d).4,
            spec_next_second(d).5,
        ),
{
}

/// Operator configuration, reset to its defaults on every boot.
pub struct Preferences {
    /// Acceptable temperature band in whole degrees Fahrenheit, `(low, high)`.
    pub temperature: (u8, u8),
    /// Acceptable relative-humidity band in whole percent, `(low, high)`.
    pub humidity: (u8, u8),
    /// The calendar: `(second, minute, hour, day, month, year)`.
    pub date: Date,
    /// Optional daily watering window,
    /// `(start_minute, start_hour, end_minute, end_hour)`.
    pub watering: Option<(u8, u8, u8, u8)>,
}

impl Preferences {
    /// Every stored field is within its range.
    pub open spec fn wf(self) -> bool {
        &&& date_wf(self.date)
        &&& self.humidity.0 <= 100
        &&& self.humidity.1 <= 100
        &&& match self.watering {
            Some(w) => w.0 < 60 && w.1 < 24 && w.2 < 60 && w.3 < 24,
            None => true,
        }
    }

    /// The calendar can advance one second without overflowing the year.
    pub open spec fn can_tick(self) -> bool {
        self.wf() && !date_is_max(self.date)
    }

    /// Decides whether `year` is a Gregorian leap year.
    pub fn is_leap_year(year: u16) -> (r: bool)
        ensures
            r == spec_is_leap_year(year),
    {
        year % 4 == 0 && (year % 100 != 0 || year % 400 == 0)
    }

    /// The number of days in the calendar's current month.
    pub fn get_days_in_month(&self) -> (r: u8)
        ensures
            r == spec_days_in_month(self.date.4, self.date.5),
            28 <= r <= 31,
    {
        match self.date.4 {
            2 => if Self::is_leap_year(self.date.5) { 29 } else { 28 },
            4 | 6 | 9 | 11 => 30,
            _ => 31,
        }
    }

    /// Advances the calendar by one second, cascading carries through
    /// minute, hour, day, month and year, and normalizing the day against
    /// the month length at each midnight rollover.
    pub fn tick_time(&mut self)
        requires
            old(self).can_tick(),
        ensures
            final(self).date == spec_next_second(old(self).date),
            final(self).temperature == old(self).temperature,
            final(self).humidity == old(self).humidity,
            final(self).watering == old(self).watering,
            final(self).wf(),
    {
        let (sec, min, hour, day, month, year) = self.date;
        if sec < 59 {
            self.date = (sec + 1, min, hour, day, month, year);
        } else if min < 59 {
            self.date = (0, min + 1, hour, day, month, year);
        } else if hour < 23 {
            self.date = (0, 0, hour + 1, day, month, year);
        } else {
            let dim = self.get_days_in_month();
            if day < dim {
                self.date = (0, 0, 0, day + 1, month, year);
            } else {
                let day2 = day + 1 - dim;
                if month < 12 {
                    self.date = (0, 0, 0, day2, month + 1, year);
                } else {
                    self.date = (0, 0, 0, day2, 1, year + 1);
                }
            }
        }
    }
}

/// Whether the calendar time of `p` falls inside its watering window.
///
/// The minute and hour bounds are checked independently, not as one
/// chronological interval; a window whose start sorts after its end
/// therefore never matches across midnight. This is the documented
/// behaviour, kept as such.
pub open spec fn spec_is_watering_time(p: Preferences) -> bool {
    match p.watering {
        Some(w) => w.0 <= p.date.1 <= w.2 && w.1 <= p.date.2 <= w.3,
        None => false,
    }
}

/// A band with its two bounds put in order: swapped when `low > high`,
/// untouched otherwise.
pub open spec fn spec_normalize_band(b: (u8, u8)) -> (u8, u8) {
    if b.0 <= b.1 { b } else { (b.1, b.0) }
}

/// Whether the start of window `w` sorts after its end, comparing the
/// `(hour, minute)` pairs lexicographically.
pub open spec fn spec_window_inverted(w: (u8, u8, u8, u8)) -> bool {
    w.1 > w.3 || (w.1 == w.3 && w.0 > w.2)
}

/// A watering window with its endpoints put in order: start and end
/// swapped when the start sorts after the end, untouched otherwise.
pub open spec fn spec_normalize_window(w: (u8, u8, u8, u8)) -> (u8, u8, u8, u8) {
    if spec_window_inverted(w) { (w.2, w.3, w.0, w.1) } else { w }
}

/// Normalization only reorders a band: afterwards `low <= high`, and the
/// two bound values are the same two that went in.
pub proof fn lemma_normalize_band_reorders(b: (u8, u8))
    ensures
        spec_normalize_band(b).0 <= spec_normalize_band(b).1,
        spec_normalize_band(b) == b || spec_normalize_band(b) == (b.1, b.0),
        set![spec_normalize_band(b).0, spec_normalize_band(b).1] == set![b.0, b.1],
{
    assert(set![spec_normalize_band(b).0, spec_normalize_band(b).1] =~= set![b.0, b.1]);
}

/// Normalization only reorders a watering window: afterwards the start
/// does not sort after the end, and the two `(minute, hour)` endpoints
/// are the same two that went in.
pub proof fn lemma_normalize_window_reorders(w: (u8, u8, u8, u8))
    ensures
        !spec_window_inverted(spec_normalize_window(w)),
        spec_normalize_window(w) == w || spec_normalize_window(w) == (w.2, w.3, w.0, w.1),
        set![
            (spec_normalize_window(w).0, spec_normalize_window(w).1),
            (spec_normalize_window(w).2, spec_normalize_window(w).3),
        ] == set![(w.0, w.1), (w.2, w.3)],
{
    assert(set![
        (spec_normalize_window(w).0, spec_normalize_window(w).1),
        (spec_normalize_window(w).2, spec_normalize_window(w).3),
    ] =~= set![(w.0, w.1), (w.2, w.3)]);
}

impl Preferences {
    /// Reports whether the sprinkler schedule is active: false when no
    /// window is set, else true iff the current minute lies within the
    /// window's minute bounds and the current hour within its hour bounds,
    /// each checked independently.
    pub fn is_watering_time(&self) -> (r: bool)
        ensures
            r == spec_is_watering_time(*self),
    {
        if let Some(watering_time) = self.watering {
            self.date.1 >= watering_time.0
                && self.date.1 <= watering_time.2
                && self.date.2 >= watering_time.1
                && self.date.2 <= watering_time.3
        } else {
            false
        }
    }

    /// Sets the watering window to its default, 00:00 to 01:00.
    pub fn set_default_watering_time(&mut self)
        ensures
            final(self).watering == Some((0u8, 0u8, 0u8, 1u8)),
            final(self).temperature == old(self).temperature,
            final(self).humidity == old(self).humidity,
            final(self).date == old(self).date,
            old(self).wf() ==> final(self).wf(),
    {
        self.watering = Some((0, 0, 0, 1));
    }

    /// The day adjacent to the current one within the current month,
    /// wrapping from the month's last day to 1 and from 1 back to the
    /// last day. Used by the date editor; it never cascades into the
    /// month or year.
    pub fn change_days(&self, increment: bool) -> (r: u8)
        requires
            date_wf(self.date),
        ensures
            ({
                let dim = spec_days_in_month(self.date.4, self.date.5);
                if increment {
                    r == if self.date.3 >= dim { 1u8 } else { (self.date.3 + 1) as u8 }
                } else {
                    r == if self.date.3 <= 1 { dim } else { (self.date.3 - 1) as u8 }
                }
            }),
            1 <= r <= 31,
    {
        let days_in_month: u8 = self.get_days_in_month();
        if increment {
            if self.date.3 >= days_in_month { 1 } else { self.date.3 + 1 }
        } else {
            if self.date.3 <= 1 { days_in_month } else { self.date.3 - 1 }
        }
    }

    /// Swaps the temperature band's bounds if the edit left `low > high`.
    pub fn normalize_temperature(&mut self)
        ensures
            final(self).temperature == spec_normalize_band(old(self).temperature),
            final(self).temperature.0 <= final(self).temperature.1,
            final(self).humidity == old(self).humidity,
            final(self).date == old(self).date,
            final(self).watering == old(self).watering,
    {
        if self.temperature.0 > self.temperature.1 {
            let temp = self.temperature.0;
            self.temperature.0 = self.temperature.1;
            self.temperature.1 = temp;
        }
    }

    /// Swaps the humidity band's bounds if the edit left `low > high`.
    pub fn normalize_humidity(&mut self)
        ensures
            final(self).humidity == spec_normalize_band(old(self).humidity),
            final(self).humidity.0 <= final(self).humidity.1,
            final(self).temperature == old(self).temperature,
            final(self).date == old(self).date,
            final(self).watering == old(self).watering,
    {
        if self.humidity.0 > self.humidity.1 {
            let temp = self.humidity.0;
            self.humidity.0 = self.humidity.1;
            self.humidity.1 = temp;
        }
    }

    /// Swaps the watering window's endpoints if the edit left the start
    /// sorting after the end (comparing hour, then minute). Does nothing
    /// when no window is set.
    pub fn normalize_watering(&mut self)
        ensures
            final(self).watering == match old(self).watering {
                Some(w) => Some(spec_normalize_window(w)),
                None => None::<(u8, u8, u8, u8)>,
            },
            final(self).temperature == old(self).temperature,
            final(self).humidity == old(self).humidity,
            final(self).date == old(self).date,
            old(self).wf() ==> final(self).wf(),
    {
        if let Some(w) = self.watering {
            if (w.1 > w.3) || (w.1 == w.3 && w.0 > w.2) {
                self.watering = Some((w.2, w.3, w.0, w.1));
            }
        }
    }
}

/// One step of a clamped edit: up stops at `cap`, down stops at 0.
pub open spec fn spec_step_clamped(v: u8, up: bool, cap: u8) -> u8 {
    if up {
        if v < cap { (v + 1) as u8 } else { v }
    } else {
        if v > 0 { (v - 1) as u8 } else { v }
    }
}

/// One step of a wrapping edit over the range `0..modulus`.
pub open spec fn spec_step_wrapping(v: u8, up: bool, modulus: u8) -> u8 {
    if up {
        if v + 1 >= modulus { 0u8 } else { (v + 1) as u8 }
    } else {
        if v == 0 { (modulus - 1) as u8 } else { (v - 1) as u8 }
    }
}

/// The calendar after a single-field edit: the chosen field moved one
/// step with wraparound inside its own range, every other field
/// untouched. Field indices follow the edit order of the date screen:
/// 0 minute, 1 hour, 2 day, 3 month, 4 year. A day edit wraps within the
/// current month's length; a month or year edit does not re-validate the
/// day.
pub open spec fn spec_adjust_date(d: Date, field: u8, up: bool) -> Date {
    if field == 0 {
        (d.0, spec_step_wrapping(d.1, up, 60), d.2, d.3, d.4, d.5)
    } else if field == 1 {
        (d.0, d.1, spec_step_wrapping(d.2, up, 24), d.3, d.4, d.5)
    } else if field == 2 {
        let dim = spec_days_in_month(d.4, d.5);
        let day = if up {
            if d.3 >= dim { 1u8 } else { (d.3 + 1) as u8 }
        } else {
            if d.3 <= 1 { dim } else { (d.3 - 1) as u8 }
        };
        (d.0, d.1, d.2, day, d.4, d.5)
    } else if field == 3 {
        let month = if up {
            if d.4 >= 12 { 1u8 } else { (d.4 + 1) as u8 }
        } else {
            if d.4 <= 1 { 12u8 } else { (d.4 - 1) as u8 }
        };
        (d.0, d.1, d.2, d.3, month, d.5)
    } else {
        let year = if up {
            if d.5 == 65535 { 0u16 } else { (d.5 + 1) as u16 }
        } else {
            if d.5 == 0 { 65535u16 } else { (d.5 - 1) as u16 }
        };
        (d.0, d.1, d.2, d.3, d.4, year)
    }
}

/// A watering window after a single-field edit, the field moved one step
/// with wraparound inside its range. Field indices follow the edit order
/// of the watering screen: 0 start hour, 1 start minute, 2 end hour,
/// 3 end minute.
pub open spec fn spec_adjust_window(w: (u8, u8, u8, u8), field: u8, up: bool) -> (u8, u8, u8, u8) {
    if field == 0 {
        (w.0, spec_step_wrapping(w.1, up, 24), w.2, w.3)
    } else if field == 1 {
        (spec_step_wrapping(w.0, up, 60), w.1, w.2, w.3)
    } else if field == 2 {
        (w.0, w.1, w.2, spec_step_wrapping(w.3, up, 24))
    } else {
        (w.0, w.1, spec_step_wrapping(w.2, up, 60), w.3)
    }
}

/// One wrapping edit step over `0..modulus`, as the editors use for
/// minutes and hours.
fn step_wrapping(v: u8, up: bool, modulus: u8) -> (r: u8)
    requires
        2 <= modulus,
        v < modulus,
    ensures
        r == spec_step_wrapping(v, up, modulus),
        r < modulus,
{
    if up {
        if v + 1 >= modulus { 0 } else { v + 1 }
    } else {
        if v == 0 { modulus - 1 } else { v - 1 }
    }
}

impl Preferences {
    /// Moves one bound of the temperature band a degree up or down,
    /// stopping at the ends of its representable range.
    pub fn adjust_temperature(&mut self, low_bound: bool, up: bool)
        ensures
            final(self).temperature == if low_bound {
                (spec_step_clamped(old(self).temperature.0, up, 255), old(self).temperature.1)
            } else {
                (old(self).temperature.0, spec_step_clamped(old(self).temperature.1, up, 255))
            },
            final(self).humidity == old(self).humidity,
            final(self).date == old(self).date,
            final(self).watering == old(self).watering,
            old(self).wf() ==> final(self).wf(),
    {
        if low_bound {
            self.temperature.0 = step_clamped(self.temperature.0, up, 255);
        } else {
            self.temperature.1 = step_clamped(self.temperature.1, up, 255);
        }
    }

    /// Moves one bound of the humidity band a percent up or down,
    /// stopping at 0 and 100.
    pub fn adjust_humidity(&mut self, low_bound: bool, up: bool)
        requires
            old(self).humidity.0 <= 100,
            old(self).humidity.1 <= 100,
        ensures
            final(self).humidity == if low_bound {
                (spec_step_clamped(old(self).humidity.0, up, 100), old(self).humidity.1)
            } else {
                (old(self).humidity.0, spec_step_clamped(old(self).humidity.1, up, 100))
            },
            final(self).temperature == old(self).temperature,
            final(self).date == old(self).date,
            final(self).watering == old(self).watering,
            old(self).wf() ==> final(self).wf(),
    {
        if low_bound {
            self.humidity.0 = step_clamped(self.humidity.0, up, 100);
        } else {
            self.humidity.1 = step_clamped(self.humidity.1, up, 100);
        }
    }

    /// Moves one calendar field a step up or down with wraparound, never
    /// cascading into the neighbouring fields.
    pub fn adjust_date_field(&mut self, field: u8, up: bool)
        requires
            field < 5,
            date_wf(old(self).date),
        ensures
            final(self).date == spec_adjust_date(old(self).date, field, up),
            date_wf(final(self).date),
            final(self).temperature == old(self).temperature,
            final(self).humidity == old(self).humidity,
            final(self).watering == old(self).watering,
            old(self).wf() ==> final(self).wf(),
    {
        let (sec, min, hour, day, month, year) = self.date;
        if field == 0 {
            self.date = (sec, step_wrapping(min, up, 60), hour, day, month, year);
        } else if field == 1 {
            self.date = (sec, min, step_wrapping(hour, up, 24), day, month, year);
        } else if field == 2 {
            let day2 = self.change_days(up);
            self.date = (sec, min, hour, day2, month, year);
        } else if field == 3 {
            let month2 = if up {
                if month >= 12 { 1 } else { month + 1 }
            } else {
                if month <= 1 { 12 } else { month - 1 }
            };
            self.date = (sec, min, hour, day, month2, year);
        } else {
            let year2 = if up {
                if year == 65535 { 0 } else { year + 1 }
            } else {
                if year == 0 { 65535 } else { year - 1 }
            };
            self.date = (sec, min, hour, day, month, year2);
        }
    }

    /// Moves one field of the watering window a step up or down with
    /// wraparound. When no window is set, the press materializes the
    /// default window instead of adjusting anything.
    pub fn adjust_watering_field(&mut self, field: u8, up: bool)
        requires
            field < 4,
            old(self).wf(),
        ensures
            final(self).watering == match old(self).watering {
                Some(w) => Some(spec_adjust_window(w, field, up)),
                None => Some((0u8, 0u8, 0u8, 1u8)),
            },
            final(self).temperature == old(self).temperature,
            final(self).humidity == old(self).humidity,
            final(self).date == old(self).date,
            final(self).wf(),
    {
        match self.watering {
            None => {
                self.set_default_watering_time();
            }
            Some(w) => {
                let w2 = if field == 0 {
                    (w.0, step_wrapping(w.1, up, 24), w.2, w.3)
                } else if field == 1 {
                    (step_wrapping(w.0, up, 60), w.1, w.2, w.3)
                } else if field == 2 {
                    (w.0, w.1, w.2, step_wrapping(w.3, up, 24))
                } else {
                    (w.0, w.1, step_wrapping(w.2, up, 60), w.3)
                };
                self.watering = Some(w2);
            }
        }
    }

    /// Removes the watering window entirely.
    pub fn clear_watering_time(&mut self)
        ensures
            final(self).watering is None,
            final(self).temperature == old(self).temperature,
            final(self).humidity == old(self).humidity,
            final(self).date == old(self).date,
            old(self).wf() ==> final(self).wf(),
    {
        self.watering = None;
    }
}

/// The time line the date screen shows: `hour:minute:second` in ASCII,
/// each number unpadded.
pub open spec fn spec_time_text(d: Date) -> Seq<u8> {
    spec_decimal(d.2 as nat) + seq![58u8] + spec_decimal(d.1 as nat) + seq![58u8] + spec_decimal(
        d.0 as nat,
    )
}

/// The date line the date screen shows: `day/month/year` in ASCII, each
/// number unpadded.
pub open spec fn spec_date_text(d: Date) -> Seq<u8> {
    spec_decimal(d.3 as nat) + seq![47u8] + spec_decimal(d.4 as nat) + seq![47u8] + spec_decimal(
        d.5 as nat,
    )
}

/// The watering screen's line: `start_hour:start_minute - end_hour:end_minute`
/// in ASCII, or the word `None` when no window is set.
pub open spec fn spec_watering_text(p: Preferences) -> Seq<u8> {
    match p.watering {
        Some(w) => spec_decimal(w.1 as nat) + seq![58u8] + spec_decimal(w.0 as nat) + seq![
            32u8,
            45u8,
            32u8,
        ] + spec_decimal(w.3 as nat) + seq![58u8] + spec_decimal(w.2 as nat),
        None => seq![78u8, 111u8, 110u8, 101u8],
    }
}

impl Preferences {
    /// Renders the calendar as two display lines, the time as
    /// `hour:minute:second` and the date as `day/month/year`.
    pub fn get_date_formatted(&self) -> (r: (Vec<u8>, Vec<u8>))
        ensures
            r.0@ == spec_time_text(self.date),
            r.1@ == spec_date_text(self.date),
    {
        let mut time: Vec<u8> = Vec::new();
        push_decimal(&mut time, self.date.2 as u16);
        time.push(58);
        push_decimal(&mut time, self.date.1 as u16);
        time.push(58);
        push_decimal(&mut time, self.date.0 as u16);

        let mut date: Vec<u8> = Vec::new();
        push_decimal(&mut date, self.date.3 as u16);
        date.push(47);
        push_decimal(&mut date, self.date.4 as u16);
        date.push(47);
        push_decimal(&mut date, self.date.5);

        proof {
            assert(time@ =~= spec_time_text(self.date));
            assert(date@ =~= spec_date_text(self.date));
        }
        (time, date)
    }

    /// Renders the watering window as one display line,
    /// `start_hour:start_minute - end_hour:end_minute`, or `None` when no
    /// window is set.
    pub fn format_watering_time(&self) -> (r: Vec<u8>)
        ensures
            r@ == spec_watering_text(*self),
    {
        let mut line: Vec<u8> = Vec::new();
        if let Some(w) = self.watering {
            push_decimal(&mut line, w.1 as u16);
            line.push(58);
            push_decimal(&mut line, w.0 as u16);
            line.push(32);
            line.push(45);
            line.push(32);
            push_decimal(&mut line, w.3 as u16);
            line.push(58);
            push_decimal(&mut line, w.2 as u16);
        } else {
            line.push(78);
            line.push(111);
            line.push(110);
            line.push(101);
        }
        proof {
            assert(line@ =~= spec_watering_text(*self));
        }
        line
    }
}

/// One clamped edit step: up stops at `cap`, down stops at 0.
fn step_clamped(v: u8, up: bool, cap: u8) -> (r: u8)
    requires
        v <= cap,
    ensures
        r == spec_step_clamped(v, up, cap),
        r <= cap,
{
    if up {
        if v < cap { v + 1 } else { v }
    } else {
        if v > 0 { v - 1 } else { v }
    }
}

/// The boot defaults: temperature band 60-80 degF, humidity band 60-70%,
/// midnight of day 1, month 1, year 2000, and no watering window.
pub open spec fn spec_default_preferences() -> Preferences {
    Preferences {
        temperature: (60u8, 80u8),
        humidity: (60u8, 70u8),
        date: (0u8, 0u8, 0u8, 1u8, 1u8, 2000u16),
        watering: None,
    }
}

impl Default for Preferences {
    /// Boot defaults: temperature band 60-80 degF, humidity band 60-70%,
    /// midnight of day 1, month 1, year 2000, and no watering window.
    fn default() -> (r: Self)
        ensures
            r == spec_default_preferences(),
            r.wf(),
    {
        Preferences {
            temperature: (60, 80),
            humidity: (60, 70),
            date: (0, 0, 0, 1, 1, 2000),
            watering: None,
        }
    }
}

} // verus!
