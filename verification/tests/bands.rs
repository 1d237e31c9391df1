use greenhouse::prefs::Preferences;

#[test]
fn normalize_swaps_inverted_temperature_band() {
    let mut p = Preferences::default();
    p.temperature = (90, 40);
    p.normalize_temperature();
    assert_eq!(p.temperature, (40, 90));
}

#[test]
fn normalize_keeps_ordered_temperature_band() {
    let mut p = Preferences::default();
    p.temperature = (40, 90);
    p.normalize_temperature();
    assert_eq!(p.temperature, (40, 90));
}

#[test]
fn normalize_keeps_equal_bounds() {
    let mut p = Preferences::default();
    p.temperature = (70, 70);
    p.normalize_temperature();
    assert_eq!(p.temperature, (70, 70));
}

#[test]
fn normalize_swaps_inverted_humidity_band() {
    let mut p = Preferences::default();
    p.humidity = (80, 20);
    p.normalize_humidity();
    assert_eq!(p.humidity, (20, 80));
}

#[test]
fn normalize_swaps_inverted_watering_window() {
    let mut p = Preferences::default();
    // Start 22:30, end 06:10: the start sorts after the end.
    p.watering = Some((30, 22, 10, 6));
    p.normalize_watering();
    assert_eq!(p.watering, Some((10, 6, 30, 22)));
}

#[test]
fn normalize_watering_compares_minutes_when_hours_equal() {
    let mut p = Preferences::default();
    p.watering = Some((45, 8, 15, 8));
    p.normalize_watering();
    assert_eq!(p.watering, Some((15, 8, 45, 8)));
}

#[test]
fn normalize_watering_keeps_ordered_window() {
    let mut p = Preferences::default();
    p.watering = Some((0, 6, 30, 7));
    p.normalize_watering();
    assert_eq!(p.watering, Some((0, 6, 30, 7)));
}

#[test]
fn normalize_watering_ignores_unset_window() {
    let mut p = Preferences::default();
    p.normalize_watering();
    assert!(p.watering.is_none());
}

#[test]
fn adjust_humidity_clamps_at_hundred() {
    let mut p = Preferences::default();
    p.humidity = (60, 100);
    p.adjust_humidity(false, true);
    assert_eq!(p.humidity, (60, 100));
    p.adjust_humidity(true, true);
    assert_eq!(p.humidity, (61, 100));
}

#[test]
fn adjust_humidity_clamps_at_zero() {
    let mut p = Preferences::default();
    p.humidity = (0, 70);
    p.adjust_humidity(true, false);
    assert_eq!(p.humidity, (0, 70));
    p.adjust_humidity(false, false);
    assert_eq!(p.humidity, (0, 69));
}

#[test]
fn adjust_temperature_moves_one_degree() {
    let mut p = Preferences::default();
    p.adjust_temperature(true, true);
    assert_eq!(p.temperature, (61, 80));
    p.adjust_temperature(false, false);
    assert_eq!(p.temperature, (61, 79));
}

#[test]
fn adjust_temperature_stops_at_range_ends() {
    let mut p = Preferences::default();
    p.temperature = (0, 255);
    p.adjust_temperature(true, false);
    assert_eq!(p.temperature, (0, 255));
    p.adjust_temperature(false, true);
    assert_eq!(p.temperature, (0, 255));
}

#[test]
fn set_default_watering_time_writes_default_window() {
    let mut p = Preferences::default();
    p.set_default_watering_time();
    assert_eq!(p.watering, Some((0, 0, 0, 1)));
}

#[test]
fn clear_watering_time_unsets_window() {
    let mut p = Preferences::default();
    p.set_default_watering_time();
    p.clear_watering_time();
    assert!(p.watering.is_none());
}
