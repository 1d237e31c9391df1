//! Button polling and debounce.
//!
//! The three momentary buttons are read once per outer-loop tick, with
//! the fixed priority Up over Down over Select. A cooldown counter,
//! decremented once per tick, gates navigation so that a held button
//! produces one action per cooldown period. A sensor-poll countdown
//! shares the same tick: when it expires, the loop turns to the sensor
//! instead of the buttons, and the calendar advances one second once per
//! hundred ticks.

use vstd::prelude::*;

use crate::prefs::Preferences;
use crate::prefs::spec_next_second;

verus! {

/// Number of outer-loop ticks between sensor polls, and between calendar
/// seconds while viewing.
pub const SENSOR_POLL_TICKS: u16 = 100;

/// Initial value of the button cooldown counter, in outer-loop ticks.
pub const BUTTON_COOLDOWN_TICKS: u8 = 50;

/// Why the display and actuators need attention this tick.
#[derive(Clone, Copy, PartialEq, Eq, Structural, Debug)]
pub enum RefreshAction {
    /// The Up button is pressed.
    UP,
    /// The Down button is pressed.
    DOWN,
    /// The Select button is pressed.
    SELECT,
    /// The sensor-poll countdown expired.
    SENSOR,
}

/// Counts the button cooldown one tick down, stopping at zero.
pub fn tick_buttons(cooldown: u8) -> (r: u8)
    ensures
        r == if cooldown > 0 { (cooldown - 1) as u8 } else { 0u8 },
{
    if cooldown > 0 {
        cooldown - 1
    } else {
        0
    }
}

/// The button with priority among those pressed this tick: Up wins over
/// Down, Down over Select; `SENSOR` stands for none.
pub open spec fn spec_pressed_action(up: bool, down: bool, select: bool) -> RefreshAction {
    if up {
        RefreshAction::UP
    } else if down {
        RefreshAction::DOWN
    } else if select {
        RefreshAction::SELECT
    } else {
        RefreshAction::SENSOR
    }
}

/// One outer-loop tick while viewing: advances the sensor-poll countdown,
/// lets the calendar gain a second once per hundred ticks, and decides
/// whether anything needs an update.
///
/// Returns `(update_needed, action, wait_time)`: a pressed button always
/// needs an update, with Up over Down over Select; with no button down,
/// an update is needed exactly when the countdown expired, and the action
/// is `SENSOR`. The countdown restarts whenever it expires; a button
/// pressed on the very tick of expiry takes priority and that sensor
/// poll is skipped, though the calendar still gains its second.
pub fn should_update(
    up: bool,
    down: bool,
    select: bool,
    wait_time: u16,
    preferences: &mut Preferences,
) -> (r: (bool, RefreshAction, u16))
    requires
        old(preferences).can_tick(),
        wait_time < SENSOR_POLL_TICKS,
    ensures
        final(preferences).date == if wait_time + 1 == SENSOR_POLL_TICKS {
            spec_next_second(old(preferences).date)
        } else {
            old(preferences).date
        },
        final(preferences).temperature == old(preferences).temperature,
        final(preferences).humidity == old(preferences).humidity,
        final(preferences).watering == old(preferences).watering,
        final(preferences).wf(),
        r.1 == spec_pressed_action(up, down, select),
        r.0 == (up || down || select || wait_time + 1 == SENSOR_POLL_TICKS),
        r.2 == if wait_time + 1 == SENSOR_POLL_TICKS {
            0u16
        } else {
            (wait_time + 1) as u16
        },
        r.2 < SENSOR_POLL_TICKS,
{
    let expired = wait_time + 1 >= SENSOR_POLL_TICKS;
    let wait_time = if expired { 0 } else { wait_time + 1 };
    if expired {
        preferences.tick_time();
    }

    if up {
        return (true, RefreshAction::UP, wait_time);
    } else if down {
        return (true, RefreshAction::DOWN, wait_time);
    } else if select {
        return (true, RefreshAction::SELECT, wait_time);
    }

    (expired, RefreshAction::SENSOR, wait_time)
}

} // verus!
