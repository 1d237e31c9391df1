//! The menu and edit state machine behind the three-button interface.
//!
//! The operator is always either viewing one of five screens or inside
//! an edit session for the selected screen. Up and Down cycle the
//! screens with wraparound in both directions; Select opens the edit
//! session, which walks a fixed sequence of sub-fields, one 500 ms poll
//! at a time, until Select has closed the last of them. Band edits end
//! with a normalization that restores `low <= high`; watering-window
//! edits end with the analogous endpoint swap, and pressing Up and Down
//! together deletes the window outright.

use vstd::prelude::*;

use crate::prefs::Preferences;
use crate::prefs::spec_adjust_date;
use crate::prefs::spec_adjust_window;
use crate::prefs::spec_normalize_band;
use crate::prefs::spec_normalize_window;
use crate::prefs::spec_step_clamped;
use crate::prefs::spec_step_wrapping;

verus! {

/// Screen showing the temperature reading and band.
pub const SCREEN_TEMPERATURE: u8 = 0;

/// Screen showing the humidity reading and band.
pub const SCREEN_HUMIDITY: u8 = 1;

/// Screen showing the pressure reading; it has nothing to edit.
pub const SCREEN_PRESSURE: u8 = 2;

/// Screen showing the calendar.
pub const SCREEN_DATE_TIME: u8 = 3;

/// Screen showing the watering window.
pub const SCREEN_WATERING: u8 = 4;

/// Number of screens in the cycle.
pub const SCREEN_COUNT: u8 = 5;

/// Moves one screen through the cycle: forwards when `next` is set, else
/// backwards, wrapping around at both ends.
pub fn next_screen(current_screen_index: u8, next: bool) -> (r: u8)
    requires
        current_screen_index < SCREEN_COUNT,
    ensures
        r == spec_step_wrapping(current_screen_index, next, SCREEN_COUNT),
        r < SCREEN_COUNT,
{
    if next {
        if current_screen_index + 1 >= SCREEN_COUNT {
            0
        } else {
            current_screen_index + 1
        }
    } else {
        if current_screen_index == 0 {
            SCREEN_COUNT - 1
        } else {
            current_screen_index - 1
        }
    }
}

/// Where an edit session stands: which screen is being edited and which
/// of its sub-fields is active.
#[derive(Clone, Copy, PartialEq, Eq, Structural, Debug)]
pub enum EditorState {
    /// Editing a band: the humidity band when `humidity` is set, else the
    /// temperature band; first the lower bound, then the upper.
    Band { humidity: bool, editing_lower: bool },
    /// Editing the calendar, one field at a time in the order minute,
    /// hour, day, month, year (`field` is 0 to 4).
    Date { field: u8 },
    /// Editing the watering window, one field at a time in the order
    /// start hour, start minute, end hour, end minute (`field` is 0 to 3).
    Watering { field: u8 },
}

impl EditorState {
    /// The active sub-field index is within its screen's range.
    pub open spec fn wf(self) -> bool {
        match self {
            EditorState::Band { .. } => true,
            EditorState::Date { field } => field < 5,
            EditorState::Watering { field } => field < 4,
        }
    }
}

/// The edit session that Select opens on each screen: the pressure
/// screen has nothing to edit, every other screen starts at its first
/// sub-field.
pub open spec fn spec_enter_edit(screen: u8) -> Option<EditorState> {
    if screen == SCREEN_TEMPERATURE {
        Some(EditorState::Band { humidity: false, editing_lower: true })
    } else if screen == SCREEN_HUMIDITY {
        Some(EditorState::Band { humidity: true, editing_lower: true })
    } else if screen == SCREEN_DATE_TIME {
        Some(EditorState::Date { field: 0 })
    } else if screen == SCREEN_WATERING {
        Some(EditorState::Watering { field: 0 })
    } else {
        None
    }
}

/// Opens the edit session for a screen, or nothing for the read-only
/// pressure screen.
pub fn enter_edit(screen: u8) -> (r: Option<EditorState>)
    requires
        screen < SCREEN_COUNT,
    ensures
        r == spec_enter_edit(screen),
        r matches Some(st) ==> st.wf(),
{
    if screen == SCREEN_TEMPERATURE {
        Some(EditorState::Band { humidity: false, editing_lower: true })
    } else if screen == SCREEN_HUMIDITY {
        Some(EditorState::Band { humidity: true, editing_lower: true })
    } else if screen == SCREEN_DATE_TIME {
        Some(EditorState::Date { field: 0 })
    } else if screen == SCREEN_WATERING {
        Some(EditorState::Watering { field: 0 })
    } else {
        None
    }
}

/// The preferences and the session state after one edit poll, given the
/// three button levels. `None` for the state means the session is over.
pub open spec fn spec_edit_step(
    st: EditorState,
    p: Preferences,
    up: bool,
    down: bool,
    select: bool,
) -> (Preferences, Option<EditorState>) {
    match st {
        EditorState::Band { humidity, editing_lower } => {
            if up || down {
                let cap: u8 = if humidity { 100 } else { 255 };
                let b = if humidity { p.humidity } else { p.temperature };
                let b2 = if editing_lower {
                    (spec_step_clamped(b.0, up, cap), b.1)
                } else {
                    (b.0, spec_step_clamped(b.1, up, cap))
                };
                let p2 = if humidity {
                    Preferences { humidity: b2, ..p }
                } else {
                    Preferences { temperature: b2, ..p }
                };
                (p2, Some(st))
            } else if select {
                if editing_lower {
                    (p, Some(EditorState::Band { humidity, editing_lower: false }))
                } else if humidity {
                    (Preferences { humidity: spec_normalize_band(p.humidity), ..p }, None)
                } else {
                    (Preferences { temperature: spec_normalize_band(p.temperature), ..p }, None)
                }
            } else {
                (p, Some(st))
            }
        }
        EditorState::Date { field } => {
            if up || down {
                (Preferences { date: spec_adjust_date(p.date, field, up), ..p }, Some(st))
            } else if select {
                if field < 4 {
                    (p, Some(EditorState::Date { field: (field + 1) as u8 }))
                } else {
                    (p, None)
                }
            } else {
                (p, Some(st))
            }
        }
        EditorState::Watering { field } => {
            if up && down {
                (Preferences { watering: None, ..p }, None)
            } else if up || down {
                let w2 = match p.watering {
                    Some(w) => Some(spec_adjust_window(w, field, up)),
                    None => Some((0u8, 0u8, 0u8, 1u8)),
                };
                (Preferences { watering: w2, ..p }, Some(st))
            } else if select {
                if field < 3 {
                    (p, Some(EditorState::Watering { field: (field + 1) as u8 }))
                } else {
                    let w2 = match p.watering {
                        Some(w) => Some(spec_normalize_window(w)),
                        None => None::<(u8, u8, u8, u8)>,
                    };
                    (Preferences { watering: w2, ..p }, None)
                }
            } else {
                (p, Some(st))
            }
        }
    }
}

/// One poll of an edit session: applies the pressed button to the active
/// sub-field and moves the session along.
///
/// Up and Down move the field's value one step, Up winning when both
/// would apply alone; Select closes the field and opens the next, and on
/// the last field ends the session, normalizing the edited band or
/// window. On the watering screen Up and Down pressed together delete
/// the window and end the session at once, skipping normalization, and
/// a press on an unset window first materializes the default window.
pub fn edit_step(st: EditorState, p: &mut Preferences, up: bool, down: bool, select: bool) -> (r:
    Option<EditorState>)
    requires
        st.wf(),
        old(p).wf(),
    ensures
        (*final(p), r) == spec_edit_step(st, *old(p), up, down, select),
        final(p).wf(),
        r matches Some(st2) ==> st2.wf(),
{
    match st {
        EditorState::Band { humidity, editing_lower } => {
            if up {
                if humidity {
                    p.adjust_humidity(editing_lower, true);
                } else {
                    p.adjust_temperature(editing_lower, true);
                }
                Some(st)
            } else if down {
                if humidity {
                    p.adjust_humidity(editing_lower, false);
                } else {
                    p.adjust_temperature(editing_lower, false);
                }
                Some(st)
            } else if select {
                if editing_lower {
                    Some(EditorState::Band { humidity, editing_lower: false })
                } else {
                    if humidity {
                        p.normalize_humidity();
                    } else {
                        p.normalize_temperature();
                    }
                    None
                }
            } else {
                Some(st)
            }
        }
        EditorState::Date { field } => {
            if up {
                p.adjust_date_field(field, true);
                Some(st)
            } else if down {
                p.adjust_date_field(field, false);
                Some(st)
            } else if select {
                if field < 4 {
                    Some(EditorState::Date { field: field + 1 })
                } else {
                    None
                }
            } else {
                Some(st)
            }
        }
        EditorState::Watering { field } => {
            if up && down {
                p.clear_watering_time();
                None
            } else if up {
                p.adjust_watering_field(field, true);
                Some(st)
            } else if down {
                p.adjust_watering_field(field, false);
                Some(st)
            } else if select {
                if field < 3 {
                    Some(EditorState::Watering { field: field + 1 })
                } else {
                    p.normalize_watering();
                    None
                }
            } else {
                Some(st)
            }
        }
    }
}

} // verus!
