//! The fire override: a two-state machine that pre-empts the threshold
//! evaluator whenever the smoke/fire input reads high.
//!
//! While the input is high the actuators are forced into the emergency
//! posture: sprinkler on, vent closed, buzzer on. The vent's state from
//! just before the alarm is remembered, and restored the moment the
//! input reads low again.

use vstd::prelude::*;

verus! {

/// Whether the controller is in its normal posture or holding an alarm.
#[derive(Clone, Copy, PartialEq, Eq, Structural, Debug)]
pub enum FireState {
    /// No fire present; the threshold evaluator decides the actuators.
    Normal,
    /// Fire present; `vent_was_open` remembers the vent's pre-alarm state.
    Alarm { vent_was_open: bool },
}

/// What one poll of the fire input asks of the actuators.
#[derive(Clone, Copy, PartialEq, Eq, Structural, Debug)]
pub enum FireAction {
    /// Nothing forced; normal evaluation proceeds.
    Quiet,
    /// The actuators are forced to exactly these values, and the
    /// evaluator is pre-empted for this iteration.
    Force { sprinkler_on: bool, vent_open: bool, buzzer_on: bool },
}

/// The emergency posture held for as long as the fire input reads high.
pub open spec fn emergency_posture() -> FireAction {
    FireAction::Force { sprinkler_on: true, vent_open: false, buzzer_on: true }
}

/// One poll of the fire input: the next state and the forced actuator
/// values, if any. `vent_open_now` is the vent's current state, read only
/// at the moment an alarm begins.
pub open spec fn spec_fire_step(s: FireState, fire_high: bool, vent_open_now: bool) -> (
    FireState,
    FireAction,
) {
    if fire_high {
        let remembered = match s {
            FireState::Normal => vent_open_now,
            FireState::Alarm { vent_was_open } => vent_was_open,
        };
        (FireState::Alarm { vent_was_open: remembered }, emergency_posture())
    } else {
        match s {
            FireState::Normal => (FireState::Normal, FireAction::Quiet),
            FireState::Alarm { vent_was_open } => (
                FireState::Normal,
                FireAction::Force { sprinkler_on: false, vent_open: vent_was_open, buzzer_on: false },
            ),
        }
    }
}

/// Polls the fire input once.
///
/// While the input is high the result forces the emergency posture and
/// the state remembers the vent; on the first low poll after an alarm the
/// result switches everything off and restores the remembered vent state.
pub fn fire_step(s: FireState, fire_high: bool, vent_open_now: bool) -> (r: (FireState, FireAction))
    ensures
        r == spec_fire_step(s, fire_high, vent_open_now),
{
    if fire_high {
        let remembered = match s {
            FireState::Normal => vent_open_now,
            FireState::Alarm { vent_was_open } => vent_was_open,
        };
        (
            FireState::Alarm { vent_was_open: remembered },
            FireAction::Force { sprinkler_on: true, vent_open: false, buzzer_on: true },
        )
    } else {
        match s {
            FireState::Normal => (FireState::Normal, FireAction::Quiet),
            FireState::Alarm { vent_was_open } => (
                FireState::Normal,
                FireAction::Force { sprinkler_on: false, vent_open: vent_was_open, buzzer_on: false },
            ),
        }
    }
}

/// The states and actions produced by a run of polls from state `s0`.
/// Each element of `steps` is one poll's input, `(fire_high, vent_open_now)`.
pub open spec fn spec_fire_run(s0: FireState, steps: Seq<(bool, bool)>) -> Seq<
    (FireState, FireAction),
>
    decreases steps.len(),
{
    if steps.len() == 0 {
        Seq::empty()
    } else {
        let first = spec_fire_step(s0, steps[0].0, steps[0].1);
        seq![first] + spec_fire_run(first.0, steps.drop_first())
    }
}

/// The state left after a run of polls from state `s0`.
pub open spec fn spec_fire_run_state(s0: FireState, steps: Seq<(bool, bool)>) -> FireState
    decreases steps.len(),
{
    if steps.len() == 0 {
        s0
    } else {
        spec_fire_run_state(spec_fire_step(s0, steps[0].0, steps[0].1).0, steps.drop_first())
    }
}

/// A run of polls answers each poll exactly once.
pub proof fn lemma_fire_run_len(s0: FireState, steps: Seq<(bool, bool)>)
    ensures
        spec_fire_run(s0, steps).len() == steps.len(),
    decreases steps.len(),
{
    if steps.len() > 0 {
        lemma_fire_run_len(spec_fire_step(s0, steps[0].0, steps[0].1).0, steps.drop_first());
    }
}

/// While the fire input stays high, an alarm never lets go: every poll
/// forces the emergency posture, and the remembered vent state survives
/// the whole run unchanged.
pub proof fn lemma_alarm_persists(v: bool, steps: Seq<(bool, bool)>)
    requires
        forall|i: int| 0 <= i < steps.len() ==> steps[i].0,
    ensures
        forall|i: int|
            0 <= i < steps.len() ==> spec_fire_run(FireState::Alarm { vent_was_open: v }, steps)[i]
                == (FireState::Alarm { vent_was_open: v }, emergency_posture()),
        spec_fire_run_state(FireState::Alarm { vent_was_open: v }, steps) == (FireState::Alarm {
            vent_was_open: v,
        }),
    decreases steps.len(),
{
    if steps.len() > 0 {
        let s = FireState::Alarm { vent_was_open: v };
        let first = spec_fire_step(s, steps[0].0, steps[0].1);
        assert(first == (s, emergency_posture()));
        let tail = steps.drop_first();
        assert(forall|i: int| 0 <= i < tail.len() ==> tail[i] == steps[i + 1]);
        lemma_alarm_persists(v, tail);
        lemma_fire_run_len(s, tail);
        let rest = spec_fire_run(s, tail);
        assert(spec_fire_run(s, steps) == seq![first] + rest);
        assert forall|i: int| 0 <= i < steps.len() implies spec_fire_run(s, steps)[i] == (
            s,
            emergency_posture(),
        ) by {
            if i > 0 {
                assert((seq![first] + rest)[i] == rest[i - 1]);
            }
        }
    }
}

/// The fire override from entry to release: when the input goes high with
/// the vent in state `vent_before`, then stays high for any number of
/// polls, every poll forces sprinkler on, vent closed and buzzer on,
/// whatever the evaluator's inputs were; and the first low poll switches
/// the alarm off and restores the vent to exactly `vent_before`.
pub proof fn lemma_fire_override(vent_before: bool, steps: Seq<(bool, bool)>, vent_now_after: bool)
    requires
        forall|i: int| 0 <= i < steps.len() ==> steps[i].0,
    ensures
        spec_fire_step(FireState::Normal, true, vent_before) == (
            FireState::Alarm { vent_was_open: vent_before },
            emergency_posture(),
        ),
        forall|i: int|
            0 <= i < steps.len() ==> spec_fire_run(
                FireState::Alarm { vent_was_open: vent_before },
                steps,
            )[i] == (FireState::Alarm { vent_was_open: vent_before }, emergency_posture()),
        spec_fire_step(
            spec_fire_run_state(FireState::Alarm { vent_was_open: vent_before }, steps),
            false,
            vent_now_after,
        ) == (
            FireState::Normal,
            FireAction::Force { sprinkler_on: false, vent_open: vent_before, buzzer_on: false },
        ),
{
    lemma_alarm_persists(vent_before, steps);
}

} // verus!
