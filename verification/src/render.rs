//! The text each screen shows, as plain ASCII bytes.
//!
//! A screen is two lines of a 2x16 character display. The library
//! composes the full line content; the embedding program only copies
//! the bytes to the device.

use vstd::prelude::*;

use crate::evaluate::SensorReading;
use crate::menu::EditorState;
use crate::menu::SCREEN_DATE_TIME;
use crate::menu::SCREEN_HUMIDITY;
use crate::menu::SCREEN_PRESSURE;
use crate::menu::SCREEN_TEMPERATURE;
use crate::prefs::Preferences;
use crate::prefs::spec_date_text;
use crate::prefs::spec_time_text;
use crate::prefs::spec_watering_text;
use crate::text::push_decimal;
use crate::text::spec_decimal;

verus! {

/// The banner shown while the fire override holds: `Fire Present`.
pub open spec fn spec_fire_banner() -> Seq<u8> {
    seq![70u8, 105u8, 114u8, 101u8, 32u8, 80u8, 114u8, 101u8, 115u8, 101u8, 110u8, 116u8]
}

/// The top line of the temperature screen: `Temp: {reading}F`.
pub open spec fn spec_temperature_line(t: u8) -> Seq<u8> {
    seq![84u8, 101u8, 109u8, 112u8, 58u8, 32u8] + spec_decimal(t as nat) + seq![70u8]
}

/// A band shown as `({low}, {high})`, with `unit` (`%` or nothing)
/// after each bound.
pub open spec fn spec_band_line(b: (u8, u8), percent: bool) -> Seq<u8> {
    let unit = if percent { seq![37u8] } else { Seq::<u8>::empty() };
    seq![40u8] + spec_decimal(b.0 as nat) + unit + seq![44u8, 32u8] + spec_decimal(b.1 as nat)
        + unit + seq![41u8]
}

/// The top line of the humidity screen: `RH: {reading}%`.
pub open spec fn spec_humidity_line(h: u8) -> Seq<u8> {
    seq![82u8, 72u8, 58u8, 32u8] + spec_decimal(h as nat) + seq![37u8]
}

/// The top line of the pressure screen: `PRS: {reading} mb`.
pub open spec fn spec_pressure_line(p: u16) -> Seq<u8> {
    seq![80u8, 82u8, 83u8, 58u8, 32u8] + spec_decimal(p as nat) + seq![32u8, 109u8, 98u8]
}

/// Both lines of screen `screen`, top line first; a line the screen
/// leaves blank is empty.
pub open spec fn spec_screen_lines(screen: u8, p: Preferences, reading: SensorReading) -> (
    Seq<u8>,
    Seq<u8>,
) {
    if screen == SCREEN_TEMPERATURE {
        (spec_temperature_line(reading.temperature_f), spec_band_line(p.temperature, false))
    } else if screen == SCREEN_HUMIDITY {
        (spec_humidity_line(reading.humidity_percent), spec_band_line(p.humidity, true))
    } else if screen == SCREEN_PRESSURE {
        (spec_pressure_line(reading.pressure_hpa), Seq::empty())
    } else if screen == SCREEN_DATE_TIME {
        (spec_time_text(p.date), spec_date_text(p.date))
    } else {
        (spec_watering_text(p), Seq::empty())
    }
}

/// What an open edit session shows on its top line: the band being
/// edited as `{low} - {high}` (with percent signs for humidity), the
/// calendar field as `{name}: {value}`, or the watering window's line.
pub open spec fn spec_edit_line(st: EditorState, p: Preferences) -> Seq<u8> {
    match st {
        EditorState::Band { humidity, .. } => {
            if humidity {
                spec_decimal(p.humidity.0 as nat) + seq![37u8, 32u8, 45u8, 32u8] + spec_decimal(
                    p.humidity.1 as nat,
                ) + seq![37u8]
            } else {
                spec_decimal(p.temperature.0 as nat) + seq![32u8, 45u8, 32u8] + spec_decimal(
                    p.temperature.1 as nat,
                )
            }
        }
        EditorState::Date { field } => {
            let label = if field == 0 {
                seq![77u8, 105u8, 110u8, 117u8, 116u8, 101u8]
            } else if field == 1 {
                seq![72u8, 111u8, 117u8, 114u8]
            } else if field == 2 {
                seq![68u8, 97u8, 121u8]
            } else if field == 3 {
                seq![77u8, 111u8, 110u8, 116u8, 104u8]
            } else {
                seq![89u8, 101u8, 97u8, 114u8]
            };
            let value = if field == 0 {
                p.date.1 as nat
            } else if field == 1 {
                p.date.2 as nat
            } else if field == 2 {
                p.date.3 as nat
            } else if field == 3 {
                p.date.4 as nat
            } else {
                p.date.5 as nat
            };
            label + seq![58u8, 32u8] + spec_decimal(value)
        }
        EditorState::Watering { .. } => spec_watering_text(p),
    }
}

/// The column of the blinking cursor that marks the active sub-field on
/// the bottom line: the left edge for a lower bound or the first half of
/// the watering window, the right edge for an upper bound or the second
/// half, the middle for a calendar field.
pub open spec fn spec_edit_cursor_col(st: EditorState) -> u8 {
    match st {
        EditorState::Band { editing_lower, .. } => if editing_lower {
            0u8
        } else {
            15u8
        },
        EditorState::Date { .. } => 7u8,
        EditorState::Watering { field } => if field < 2 {
            0u8
        } else {
            15u8
        },
    }
}

/// Renders the top line of an open edit session.
pub fn edit_line(st: &EditorState, p: &Preferences) -> (r: Vec<u8>)
    ensures
        r@ == spec_edit_line(*st, *p),
{
    match st {
        EditorState::Band { humidity, .. } => {
            let mut line: Vec<u8> = Vec::new();
            if *humidity {
                push_decimal(&mut line, p.humidity.0 as u16);
                line.extend_from_slice(&[37, 32, 45, 32]);
                push_decimal(&mut line, p.humidity.1 as u16);
                line.push(37);
            } else {
                push_decimal(&mut line, p.temperature.0 as u16);
                line.extend_from_slice(&[32, 45, 32]);
                push_decimal(&mut line, p.temperature.1 as u16);
            }
            proof {
                assert(line@ =~= spec_edit_line(*st, *p));
            }
            line
        }
        EditorState::Date { field } => {
            let mut line: Vec<u8> = Vec::new();
            let value: u16 = if *field == 0 {
                line.extend_from_slice(&[77, 105, 110, 117, 116, 101]);
                p.date.1 as u16
            } else if *field == 1 {
                line.extend_from_slice(&[72, 111, 117, 114]);
                p.date.2 as u16
            } else if *field == 2 {
                line.extend_from_slice(&[68, 97, 121]);
                p.date.3 as u16
            } else if *field == 3 {
                line.extend_from_slice(&[77, 111, 110, 116, 104]);
                p.date.4 as u16
            } else {
                line.extend_from_slice(&[89, 101, 97, 114]);
                p.date.5
            };
            line.push(58);
            line.push(32);
            push_decimal(&mut line, value);
            proof {
                assert(line@ =~= spec_edit_line(*st, *p));
            }
            line
        }
        EditorState::Watering { .. } => p.format_watering_time(),
    }
}

/// The column for the edit session's blinking cursor on the bottom line.
pub fn edit_cursor_col(st: &EditorState) -> (r: u8)
    ensures
        r == spec_edit_cursor_col(*st),
        r < 16,
{
    match st {
        EditorState::Band { editing_lower, .. } => if *editing_lower {
            0
        } else {
            15
        },
        EditorState::Date { .. } => 7,
        EditorState::Watering { field } => if *field < 2 {
            0
        } else {
            15
        },
    }
}

/// The banner shown while the fire override holds.
pub fn fire_banner() -> (r: Vec<u8>)
    ensures
        r@ == spec_fire_banner(),
{
    let mut line: Vec<u8> = Vec::new();
    line.extend_from_slice(&[70, 105, 114, 101, 32, 80, 114, 101, 115, 101, 110, 116]);
    proof {
        assert(line@ =~= spec_fire_banner());
    }
    line
}

/// A band rendered as `({low}, {high})`, with a percent sign after each
/// bound when `percent` is set.
fn push_band_line(out: &mut Vec<u8>, b: (u8, u8), percent: bool)
    ensures
        final(out)@ == old(out)@ + spec_band_line(b, percent),
{
    out.push(40);
    push_decimal(out, b.0 as u16);
    if percent {
        out.push(37);
    }
    out.push(44);
    out.push(32);
    push_decimal(out, b.1 as u16);
    if percent {
        out.push(37);
    }
    out.push(41);
    proof {
        assert(out@ =~= old(out)@ + spec_band_line(b, percent));
    }
}

/// Renders both lines of the given screen from the preferences and the
/// latest sensor reading.
pub fn screen_lines(screen: u8, p: &Preferences, reading: &SensorReading) -> (r: (Vec<u8>, Vec<u8>))
    requires
        screen < crate::menu::SCREEN_COUNT,
    ensures
        (r.0@, r.1@) == spec_screen_lines(screen, *p, *reading),
{
    if screen == SCREEN_TEMPERATURE {
        let mut top: Vec<u8> = Vec::new();
        top.extend_from_slice(&[84, 101, 109, 112, 58, 32]);
        push_decimal(&mut top, reading.temperature_f as u16);
        top.push(70);
        let mut bottom: Vec<u8> = Vec::new();
        push_band_line(&mut bottom, p.temperature, false);
        proof {
            assert(top@ =~= spec_temperature_line(reading.temperature_f));
            assert(bottom@ =~= spec_band_line(p.temperature, false));
        }
        (top, bottom)
    } else if screen == SCREEN_HUMIDITY {
        let mut top: Vec<u8> = Vec::new();
        top.extend_from_slice(&[82, 72, 58, 32]);
        push_decimal(&mut top, reading.humidity_percent as u16);
        top.push(37);
        let mut bottom: Vec<u8> = Vec::new();
        push_band_line(&mut bottom, p.humidity, true);
        proof {
            assert(top@ =~= spec_humidity_line(reading.humidity_percent));
            assert(bottom@ =~= spec_band_line(p.humidity, true));
        }
        (top, bottom)
    } else if screen == SCREEN_PRESSURE {
        let mut top: Vec<u8> = Vec::new();
        top.extend_from_slice(&[80, 82, 83, 58, 32]);
        push_decimal(&mut top, reading.pressure_hpa);
        top.extend_from_slice(&[32, 109, 98]);
        proof {
            assert(top@ =~= spec_pressure_line(reading.pressure_hpa));
        }
        (top, Vec::new())
    } else if screen == SCREEN_DATE_TIME {
        p.get_date_formatted()
    } else {
        (p.format_watering_time(), Vec::new())
    }
}

} // verus!
