use greenhouse::menu::EditorState;
use greenhouse::menu::SCREEN_COUNT;
use greenhouse::menu::SCREEN_DATE_TIME;
use greenhouse::menu::SCREEN_HUMIDITY;
use greenhouse::menu::SCREEN_PRESSURE;
use greenhouse::menu::SCREEN_TEMPERATURE;
use greenhouse::menu::SCREEN_WATERING;
use greenhouse::menu::edit_step;
use greenhouse::menu::enter_edit;
use greenhouse::menu::next_screen;
use greenhouse::prefs::Preferences;

#[test]
fn five_forward_cycles_return_to_first_screen() {
    let mut s = 0;
    for _ in 0..5 {
        s = next_screen(s, true);
    }
    assert_eq!(s, 0);
}

#[test]
fn backward_from_first_screen_wraps_to_last() {
    assert_eq!(next_screen(0, false), SCREEN_COUNT - 1);
}

#[test]
fn forward_steps_visit_every_screen() {
    assert_eq!(next_screen(SCREEN_TEMPERATURE, true), SCREEN_HUMIDITY);
    assert_eq!(next_screen(SCREEN_HUMIDITY, true), SCREEN_PRESSURE);
    assert_eq!(next_screen(SCREEN_PRESSURE, true), SCREEN_DATE_TIME);
    assert_eq!(next_screen(SCREEN_DATE_TIME, true), SCREEN_WATERING);
    assert_eq!(next_screen(SCREEN_WATERING, true), SCREEN_TEMPERATURE);
}

#[test]
fn pressure_screen_has_no_edit_session() {
    assert!(enter_edit(SCREEN_PRESSURE).is_none());
    assert_eq!(
        enter_edit(SCREEN_TEMPERATURE),
        Some(EditorState::Band { humidity: false, editing_lower: true })
    );
    assert_eq!(
        enter_edit(SCREEN_HUMIDITY),
        Some(EditorState::Band { humidity: true, editing_lower: true })
    );
    assert_eq!(enter_edit(SCREEN_DATE_TIME), Some(EditorState::Date { field: 0 }));
    assert_eq!(enter_edit(SCREEN_WATERING), Some(EditorState::Watering { field: 0 }));
}

#[test]
fn temperature_edit_session_adjusts_and_normalizes() {
    let mut p = Preferences::default();
    let mut st = enter_edit(SCREEN_TEMPERATURE).unwrap();
    // Raise the lower bound three times past the upper bound's reach.
    for _ in 0..3 {
        st = edit_step(st, &mut p, true, false, false).unwrap();
    }
    assert_eq!(p.temperature, (63, 80));
    // Select: move on to the upper bound.
    st = edit_step(st, &mut p, false, false, true).unwrap();
    assert_eq!(st, EditorState::Band { humidity: false, editing_lower: false });
    // Drop the upper bound below the lower one.
    for _ in 0..20 {
        st = edit_step(st, &mut p, false, true, false).unwrap();
    }
    assert_eq!(p.temperature, (63, 60));
    // Select: session over, band normalized by swapping.
    let done = edit_step(st, &mut p, false, false, true);
    assert!(done.is_none());
    assert_eq!(p.temperature, (60, 63));
}

#[test]
fn humidity_edit_session_touches_only_humidity() {
    let mut p = Preferences::default();
    let mut st = enter_edit(SCREEN_HUMIDITY).unwrap();
    st = edit_step(st, &mut p, false, true, false).unwrap();
    assert_eq!(p.humidity, (59, 70));
    assert_eq!(p.temperature, (60, 80));
    st = edit_step(st, &mut p, false, false, true).unwrap();
    st = edit_step(st, &mut p, true, false, false).unwrap();
    assert_eq!(p.humidity, (59, 71));
    assert!(edit_step(st, &mut p, false, false, true).is_none());
    assert_eq!(p.humidity, (59, 71));
}

#[test]
fn idle_edit_poll_changes_nothing() {
    let mut p = Preferences::default();
    let st = enter_edit(SCREEN_TEMPERATURE).unwrap();
    let st2 = edit_step(st, &mut p, false, false, false).unwrap();
    assert_eq!(st2, st);
    assert_eq!(p.temperature, (60, 80));
}

#[test]
fn date_edit_walks_five_fields() {
    let mut p = Preferences::default();
    let mut st = enter_edit(SCREEN_DATE_TIME).unwrap();
    // Minute: wrap backwards from 0 to 59.
    st = edit_step(st, &mut p, false, true, false).unwrap();
    assert_eq!(p.date.1, 59);
    st = edit_step(st, &mut p, false, false, true).unwrap();
    // Hour: up once.
    st = edit_step(st, &mut p, true, false, false).unwrap();
    assert_eq!(p.date.2, 1);
    st = edit_step(st, &mut p, false, false, true).unwrap();
    // Day: down wraps from 1 to the month's last day.
    st = edit_step(st, &mut p, false, true, false).unwrap();
    assert_eq!(p.date.3, 31);
    st = edit_step(st, &mut p, false, false, true).unwrap();
    // Month: down wraps from 1 to 12.
    st = edit_step(st, &mut p, false, true, false).unwrap();
    assert_eq!(p.date.4, 12);
    st = edit_step(st, &mut p, false, false, true).unwrap();
    // Year: up once.
    st = edit_step(st, &mut p, true, false, false).unwrap();
    assert_eq!(p.date.5, 2001);
    // Select on the last field ends the session.
    assert!(edit_step(st, &mut p, false, false, true).is_none());
    assert_eq!(p.date, (0, 59, 1, 31, 12, 2001));
}

#[test]
fn month_edit_does_not_revalidate_day() {
    let mut p = Preferences::default();
    p.date = (0, 0, 0, 31, 3, 2023);
    // Walk to the month field and step it back to February.
    let mut st = enter_edit(SCREEN_DATE_TIME).unwrap();
    st = edit_step(st, &mut p, false, false, true).unwrap();
    st = edit_step(st, &mut p, false, false, true).unwrap();
    st = edit_step(st, &mut p, false, false, true).unwrap();
    st = edit_step(st, &mut p, false, true, false).unwrap();
    assert_eq!(p.date, (0, 0, 0, 31, 2, 2023));
    let _ = st;
}

#[test]
fn watering_edit_materializes_default_window() {
    let mut p = Preferences::default();
    let st = enter_edit(SCREEN_WATERING).unwrap();
    // First press on an unset window creates the default, no adjustment.
    let st2 = edit_step(st, &mut p, true, false, false).unwrap();
    assert_eq!(p.watering, Some((0, 0, 0, 1)));
    // The next press adjusts the active field (start hour).
    edit_step(st2, &mut p, true, false, false).unwrap();
    assert_eq!(p.watering, Some((0, 1, 0, 1)));
}

#[test]
fn watering_edit_session_walks_fields_and_normalizes() {
    let mut p = Preferences::default();
    p.watering = Some((0, 10, 0, 8));
    let mut st = enter_edit(SCREEN_WATERING).unwrap();
    // Field 0: start hour up.
    st = edit_step(st, &mut p, true, false, false).unwrap();
    assert_eq!(p.watering, Some((0, 11, 0, 8)));
    st = edit_step(st, &mut p, false, false, true).unwrap();
    // Field 1: start minute down wraps to 59.
    st = edit_step(st, &mut p, false, true, false).unwrap();
    assert_eq!(p.watering, Some((59, 11, 0, 8)));
    st = edit_step(st, &mut p, false, false, true).unwrap();
    // Field 2: end hour down.
    st = edit_step(st, &mut p, false, true, false).unwrap();
    assert_eq!(p.watering, Some((59, 11, 0, 7)));
    st = edit_step(st, &mut p, false, false, true).unwrap();
    // Field 3: end minute up.
    st = edit_step(st, &mut p, true, false, false).unwrap();
    assert_eq!(p.watering, Some((59, 11, 1, 7)));
    // Final select normalizes: start 11:59 sorts after end 7:01.
    assert!(edit_step(st, &mut p, false, false, true).is_none());
    assert_eq!(p.watering, Some((1, 7, 59, 11)));
}

#[test]
fn up_and_down_together_delete_window() {
    let mut p = Preferences::default();
    p.watering = Some((0, 10, 0, 8));
    let st = enter_edit(SCREEN_WATERING).unwrap();
    let done = edit_step(st, &mut p, true, true, false);
    assert!(done.is_none());
    assert!(p.watering.is_none());
}
