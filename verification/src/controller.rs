//! The control loop's state and its step functions.
//!
//! The embedding program owns the timing and the hardware; the
//! controller owns every decision. Each outer-loop tick it is handed the
//! three button levels and answers with what to do next: nothing, a
//! re-render, or a sensor poll. A sensor poll starts with the fire
//! override; only when that stays quiet is the reading evaluated against
//! the thresholds. While an edit session is open the embedding program
//! calls the session's own tick instead, at its slower cadence.

use vstd::prelude::*;

use crate::evaluate::ActuatorIntent;
use crate::evaluate::SensorReading;
use crate::evaluate::evaluate;
use crate::evaluate::spec_sprinkler_on;
use crate::evaluate::spec_vent_open;
use crate::fire::FireAction;
use crate::fire::FireState;
use crate::fire::fire_step;
use crate::fire::spec_fire_step;
use crate::input::BUTTON_COOLDOWN_TICKS;
use crate::input::RefreshAction;
use crate::input::SENSOR_POLL_TICKS;
use crate::input::should_update;
use crate::input::tick_buttons;
use crate::menu::EditorState;
use crate::menu::SCREEN_COUNT;
use crate::menu::SCREEN_TEMPERATURE;
use crate::menu::edit_step;
use crate::menu::enter_edit;
use crate::menu::next_screen;
use crate::menu::spec_edit_step;
use crate::menu::spec_enter_edit;
use crate::prefs::Preferences;
use crate::prefs::spec_next_second;
use crate::prefs::spec_step_wrapping;

verus! {

/// Whether the operator is viewing a screen or inside an edit session.
#[derive(Clone, Copy, PartialEq, Eq, Structural, Debug)]
pub enum MenuState {
    /// Showing the current screen.
    Viewing,
    /// Inside the edit session the payload describes.
    Editing(EditorState),
}

/// What the embedding program should do after one viewing tick.
#[derive(Clone, Copy, PartialEq, Eq, Structural, Debug)]
pub enum StepAction {
    /// Nothing changed.
    Idle,
    /// The screen or the menu state changed; render again.
    Render,
    /// The sensor countdown expired: check the fire input, then acquire
    /// a reading and evaluate it.
    ReadSensor,
}

/// All state the control loop owns: the preferences, the menu position,
/// the fire override, the two countdowns, and the last commanded
/// actuator values.
pub struct Controller {
    /// Operator configuration and the calendar.
    pub prefs: Preferences,
    /// The screen the operator last selected.
    pub screen: u8,
    /// Viewing or editing.
    pub menu: MenuState,
    /// The fire-override state.
    pub fire: FireState,
    /// Ticks left before Up/Down/Select act again.
    pub button_cooldown: u8,
    /// Ticks since the last sensor poll.
    pub wait_time: u16,
    /// Alternates each edit poll so the calendar gains one second per
    /// two 500 ms polls.
    pub edit_parity: bool,
    /// Last commanded sprinkler-relay value.
    pub sprinkler_on: bool,
    /// Last commanded roof-vent value.
    pub vent_open: bool,
    /// Last commanded buzzer value.
    pub buzzer_on: bool,
}

impl Controller {
    /// Every part is within its range.
    pub open spec fn wf(self) -> bool {
        &&& self.prefs.wf()
        &&& self.screen < SCREEN_COUNT
        &&& self.wait_time < SENSOR_POLL_TICKS
        &&& match self.menu {
            MenuState::Editing(st) => st.wf(),
            MenuState::Viewing => true,
        }
    }

    /// The controller at boot: default preferences, the temperature
    /// screen, no alarm, every actuator off, and the button cooldown
    /// armed.
    pub fn new() -> (r: Self)
        ensures
            r.prefs == crate::prefs::spec_default_preferences(),
            r.screen == SCREEN_TEMPERATURE,
            r.menu == MenuState::Viewing,
            r.fire == FireState::Normal,
            r.button_cooldown == BUTTON_COOLDOWN_TICKS,
            r.wait_time == 0,
            !r.edit_parity,
            !r.sprinkler_on,
            !r.vent_open,
            !r.buzzer_on,
            r.wf(),
    {
        Controller {
            prefs: Preferences::default(),
            screen: SCREEN_TEMPERATURE,
            menu: MenuState::Viewing,
            fire: FireState::Normal,
            button_cooldown: BUTTON_COOLDOWN_TICKS,
            wait_time: 0,
            edit_parity: false,
            sprinkler_on: false,
            vent_open: false,
            buzzer_on: false,
        }
    }
}

/// The controller after one viewing tick, and what that tick asks of the
/// embedding program. Buttons act only with the cooldown at zero, Up
/// cycling the screens backwards, Down forwards, Select opening the edit
/// session; each accepted press re-arms the cooldown. With no button
/// down, the expired sensor countdown asks for a sensor poll.
pub open spec fn spec_poll_step(c: Controller, up: bool, down: bool, select: bool) -> (
    Controller,
    StepAction,
) {
    let cd = if c.button_cooldown > 0 {
        (c.button_cooldown - 1) as u8
    } else {
        0u8
    };
    let ticked = c.wait_time + 1 == SENSOR_POLL_TICKS;
    let prefs2 = if ticked {
        Preferences { date: spec_next_second(c.prefs.date), ..c.prefs }
    } else {
        c.prefs
    };
    let w2: u16 = if ticked {
        0u16
    } else {
        (c.wait_time + 1) as u16
    };
    let c1 = Controller { prefs: prefs2, wait_time: w2, button_cooldown: cd, ..c };
    if up || down {
        if cd == 0 {
            let c2 = Controller {
                screen: spec_step_wrapping(c.screen, !up, SCREEN_COUNT),
                button_cooldown: BUTTON_COOLDOWN_TICKS,
                ..c1
            };
            (c2, StepAction::Render)
        } else {
            (c1, StepAction::Idle)
        }
    } else if select {
        if cd == 0 {
            match spec_enter_edit(c.screen) {
                Some(st) => {
                    let c2 = Controller {
                        menu: MenuState::Editing(st),
                        edit_parity: false,
                        button_cooldown: BUTTON_COOLDOWN_TICKS,
                        ..c1
                    };
                    (c2, StepAction::Render)
                }
                None => (c1, StepAction::Idle),
            }
        } else {
            (c1, StepAction::Idle)
        }
    } else if ticked {
        (c1, StepAction::ReadSensor)
    } else {
        (c1, StepAction::Idle)
    }
}

/// The controller after one edit poll: the calendar gains a second on
/// every other poll, then the buttons drive the edit session.
pub open spec fn spec_edit_tick(c: Controller, up: bool, down: bool, select: bool) -> Controller {
    let p1 = if c.edit_parity {
        Preferences { date: spec_next_second(c.prefs.date), ..c.prefs }
    } else {
        c.prefs
    };
    match c.menu {
        MenuState::Editing(st) => {
            let r = spec_edit_step(st, p1, up, down, select);
            let menu2 = match r.1 {
                Some(st2) => MenuState::Editing(st2),
                None => MenuState::Viewing,
            };
            Controller { prefs: r.0, menu: menu2, edit_parity: !c.edit_parity, ..c }
        }
        MenuState::Viewing => c,
    }
}

impl Controller {
    /// One outer-loop tick while viewing: counts the two countdowns,
    /// keeps the calendar running, and dispatches the pressed button.
    pub fn poll_step(&mut self, up: bool, down: bool, select: bool) -> (r: StepAction)
        requires
            old(self).wf(),
            old(self).menu == MenuState::Viewing,
            old(self).prefs.can_tick(),
        ensures
            (*final(self), r) == spec_poll_step(*old(self), up, down, select),
            final(self).wf(),
    {
        self.button_cooldown = tick_buttons(self.button_cooldown);
        let (update_needed, action, wait_time) = should_update(
            up,
            down,
            select,
            self.wait_time,
            &mut self.prefs,
        );
        self.wait_time = wait_time;
        if !update_needed {
            return StepAction::Idle;
        }
        match action {
            RefreshAction::UP => {
                if self.button_cooldown == 0 {
                    self.screen = next_screen(self.screen, false);
                    self.button_cooldown = BUTTON_COOLDOWN_TICKS;
                    StepAction::Render
                } else {
                    StepAction::Idle
                }
            }
            RefreshAction::DOWN => {
                if self.button_cooldown == 0 {
                    self.screen = next_screen(self.screen, true);
                    self.button_cooldown = BUTTON_COOLDOWN_TICKS;
                    StepAction::Render
                } else {
                    StepAction::Idle
                }
            }
            RefreshAction::SELECT => {
                if self.button_cooldown == 0 {
                    match enter_edit(self.screen) {
                        Some(st) => {
                            self.menu = MenuState::Editing(st);
                            self.edit_parity = false;
                            self.button_cooldown = BUTTON_COOLDOWN_TICKS;
                            StepAction::Render
                        }
                        None => StepAction::Idle,
                    }
                } else {
                    StepAction::Idle
                }
            }
            RefreshAction::SENSOR => StepAction::ReadSensor,
        }
    }

    /// One 500 ms poll of an open edit session. Returns whether the
    /// session is still open; does nothing when no session is open.
    pub fn edit_tick(&mut self, up: bool, down: bool, select: bool) -> (r: bool)
        requires
            old(self).wf(),
            old(self).menu matches MenuState::Editing(_) && old(self).edit_parity ==> old(
                self,
            ).prefs.can_tick(),
        ensures
            *final(self) == spec_edit_tick(*old(self), up, down, select),
            r == (final(self).menu matches MenuState::Editing(_)),
            final(self).wf(),
    {
        match self.menu {
            MenuState::Viewing => false,
            MenuState::Editing(st) => {
                if self.edit_parity {
                    self.prefs.tick_time();
                }
                self.edit_parity = !self.edit_parity;
                match edit_step(st, &mut self.prefs, up, down, select) {
                    Some(st2) => {
                        self.menu = MenuState::Editing(st2);
                        true
                    }
                    None => {
                        self.menu = MenuState::Viewing;
                        false
                    }
                }
            }
        }
    }

    /// One poll of the fire input, made before every sensor reading.
    ///
    /// Returns whether the fire override pre-empted normal evaluation
    /// this iteration: while the input is high the actuators hold the
    /// emergency posture and the calendar still gains its second; on the
    /// poll that clears an alarm everything is switched off and the vent
    /// restored to its remembered pre-alarm state.
    pub fn fire_poll(&mut self, fire_high: bool) -> (r: bool)
        requires
            old(self).wf(),
            fire_high ==> old(self).prefs.can_tick(),
        ensures
            final(self).fire == spec_fire_step(old(self).fire, fire_high, old(self).vent_open).0,
            ({
                let act = spec_fire_step(old(self).fire, fire_high, old(self).vent_open).1;
                match act {
                    FireAction::Quiet => {
                        &&& !r
                        &&& final(self).sprinkler_on == old(self).sprinkler_on
                        &&& final(self).vent_open == old(self).vent_open
                        &&& final(self).buzzer_on == old(self).buzzer_on
                        &&& final(self).prefs == old(self).prefs
                    }
                    FireAction::Force { sprinkler_on, vent_open, buzzer_on } => {
                        &&& r
                        &&& final(self).sprinkler_on == sprinkler_on
                        &&& final(self).vent_open == vent_open
                        &&& final(self).buzzer_on == buzzer_on
                        &&& final(self).prefs.date == if fire_high {
                            spec_next_second(old(self).prefs.date)
                        } else {
                            old(self).prefs.date
                        }
                        &&& final(self).prefs.temperature == old(self).prefs.temperature
                        &&& final(self).prefs.humidity == old(self).prefs.humidity
                        &&& final(self).prefs.watering == old(self).prefs.watering
                    }
                }
            }),
            final(self).screen == old(self).screen,
            final(self).menu == old(self).menu,
            final(self).button_cooldown == old(self).button_cooldown,
            final(self).wait_time == old(self).wait_time,
            final(self).edit_parity == old(self).edit_parity,
            final(self).wf(),
    {
        let (fire2, action) = fire_step(self.fire, fire_high, self.vent_open);
        self.fire = fire2;
        match action {
            FireAction::Quiet => false,
            FireAction::Force { sprinkler_on, vent_open, buzzer_on } => {
                self.sprinkler_on = sprinkler_on;
                self.vent_open = vent_open;
                self.buzzer_on = buzzer_on;
                if fire_high {
                    self.prefs.tick_time();
                }
                true
            }
        }
    }

    /// Evaluates one sensor reading against the thresholds and commands
    /// the vent and the sprinkler accordingly. Called only when the fire
    /// override stayed quiet.
    pub fn apply_reading(&mut self, reading: &SensorReading)
        requires
            old(self).wf(),
        ensures
            final(self).vent_open == spec_vent_open(*reading, old(self).prefs),
            final(self).sprinkler_on == spec_sprinkler_on(*reading, old(self).prefs),
            final(self).buzzer_on == old(self).buzzer_on,
            final(self).prefs == old(self).prefs,
            final(self).screen == old(self).screen,
            final(self).menu == old(self).menu,
            final(self).fire == old(self).fire,
            final(self).button_cooldown == old(self).button_cooldown,
            final(self).wait_time == old(self).wait_time,
            final(self).edit_parity == old(self).edit_parity,
            final(self).wf(),
    {
        let intent: ActuatorIntent = evaluate(reading, &self.prefs);
        self.vent_open = intent.vent_open;
        self.sprinkler_on = intent.sprinkler_on;
    }
}

} // verus!
