use greenhouse::fire::FireAction;
use greenhouse::fire::FireState;
use greenhouse::fire::fire_step;

const EMERGENCY: FireAction = FireAction::Force { sprinkler_on: true, vent_open: false, buzzer_on: true };

#[test]
fn alarm_entry_forces_emergency_posture() {
    let (s, a) = fire_step(FireState::Normal, true, true);
    assert_eq!(s, FireState::Alarm { vent_was_open: true });
    assert_eq!(a, EMERGENCY);
}

#[test]
fn alarm_holds_while_input_high() {
    let mut s = FireState::Normal;
    let mut a;
    (s, a) = fire_step(s, true, false);
    for _ in 0..10 {
        (s, a) = fire_step(s, true, true);
        assert_eq!(s, FireState::Alarm { vent_was_open: false });
        assert_eq!(a, EMERGENCY);
    }
}

#[test]
fn all_clear_restores_open_vent() {
    let (s, _) = fire_step(FireState::Normal, true, true);
    let (s2, a2) = fire_step(s, false, false);
    assert_eq!(s2, FireState::Normal);
    assert_eq!(a2, FireAction::Force { sprinkler_on: false, vent_open: true, buzzer_on: false });
}

#[test]
fn all_clear_restores_closed_vent() {
    let (s, _) = fire_step(FireState::Normal, true, false);
    let (s2, a2) = fire_step(s, false, true);
    assert_eq!(s2, FireState::Normal);
    assert_eq!(a2, FireAction::Force { sprinkler_on: false, vent_open: false, buzzer_on: false });
}

#[test]
fn quiet_while_normal_and_input_low() {
    let (s, a) = fire_step(FireState::Normal, false, true);
    assert_eq!(s, FireState::Normal);
    assert_eq!(a, FireAction::Quiet);
}

#[test]
fn remembered_vent_survives_long_alarm() {
    // The vent state sampled at entry survives however long the alarm
    // holds, whatever the vent input reads meanwhile.
    let (mut s, _) = fire_step(FireState::Normal, true, true);
    for i in 0..100 {
        let (s2, _) = fire_step(s, true, i % 2 == 0);
        s = s2;
    }
    let (s3, a3) = fire_step(s, false, false);
    assert_eq!(s3, FireState::Normal);
    assert_eq!(a3, FireAction::Force { sprinkler_on: false, vent_open: true, buzzer_on: false });
}
