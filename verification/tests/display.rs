use greenhouse::evaluate::SensorReading;
use greenhouse::menu::EditorState;
use greenhouse::prefs::Preferences;
use greenhouse::render::edit_cursor_col;
use greenhouse::render::edit_line;
use greenhouse::render::fire_banner;
use greenhouse::render::screen_lines;

fn reading(t: u8, h: u8, p: u16) -> SensorReading {
    SensorReading { temperature_f: t, humidity_percent: h, pressure_hpa: p }
}

#[test]
fn temperature_screen_lines() {
    let p = Preferences::default();
    let (top, bottom) = screen_lines(0, &p, &reading(72, 65, 1013));
    assert_eq!(top, b"Temp: 72F".to_vec());
    assert_eq!(bottom, b"(60, 80)".to_vec());
}

#[test]
fn humidity_screen_lines() {
    let p = Preferences::default();
    let (top, bottom) = screen_lines(1, &p, &reading(72, 65, 1013));
    assert_eq!(top, b"RH: 65%".to_vec());
    assert_eq!(bottom, b"(60%, 70%)".to_vec());
}

#[test]
fn pressure_screen_lines() {
    let p = Preferences::default();
    let (top, bottom) = screen_lines(2, &p, &reading(72, 65, 1013));
    assert_eq!(top, b"PRS: 1013 mb".to_vec());
    assert!(bottom.is_empty());
}

#[test]
fn date_screen_lines() {
    let mut p = Preferences::default();
    p.date = (5, 30, 12, 25, 11, 2023);
    let (top, bottom) = screen_lines(3, &p, &reading(72, 65, 1013));
    assert_eq!(top, b"12:30:5".to_vec());
    assert_eq!(bottom, b"25/11/2023".to_vec());
}

#[test]
fn watering_screen_line_with_window() {
    let mut p = Preferences::default();
    p.watering = Some((30, 6, 0, 8));
    let (top, bottom) = screen_lines(4, &p, &reading(72, 65, 1013));
    assert_eq!(top, b"6:30 - 8:0".to_vec());
    assert!(bottom.is_empty());
}

#[test]
fn watering_screen_line_without_window() {
    let p = Preferences::default();
    let line = p.format_watering_time();
    assert_eq!(line, b"None".to_vec());
}

#[test]
fn date_formatting_at_boot() {
    let p = Preferences::default();
    let (time, date) = p.get_date_formatted();
    assert_eq!(time, b"0:0:0".to_vec());
    assert_eq!(date, b"1/1/2000".to_vec());
}

#[test]
fn fire_banner_text() {
    assert_eq!(fire_banner(), b"Fire Present".to_vec());
}

#[test]
fn temperature_edit_line() {
    let p = Preferences::default();
    let st = EditorState::Band { humidity: false, editing_lower: true };
    assert_eq!(edit_line(&st, &p), b"60 - 80".to_vec());
    assert_eq!(edit_cursor_col(&st), 0);
    let st = EditorState::Band { humidity: false, editing_lower: false };
    assert_eq!(edit_cursor_col(&st), 15);
}

#[test]
fn humidity_edit_line() {
    let p = Preferences::default();
    let st = EditorState::Band { humidity: true, editing_lower: true };
    assert_eq!(edit_line(&st, &p), b"60% - 70%".to_vec());
}

#[test]
fn date_edit_lines() {
    let mut p = Preferences::default();
    p.date = (5, 30, 12, 25, 11, 2023);
    assert_eq!(edit_line(&EditorState::Date { field: 0 }, &p), b"Minute: 30".to_vec());
    assert_eq!(edit_line(&EditorState::Date { field: 1 }, &p), b"Hour: 12".to_vec());
    assert_eq!(edit_line(&EditorState::Date { field: 2 }, &p), b"Day: 25".to_vec());
    assert_eq!(edit_line(&EditorState::Date { field: 3 }, &p), b"Month: 11".to_vec());
    assert_eq!(edit_line(&EditorState::Date { field: 4 }, &p), b"Year: 2023".to_vec());
    assert_eq!(edit_cursor_col(&EditorState::Date { field: 2 }), 7);
}

#[test]
fn watering_edit_line_and_cursor() {
    let mut p = Preferences::default();
    p.watering = Some((30, 6, 0, 8));
    assert_eq!(edit_line(&EditorState::Watering { field: 0 }, &p), b"6:30 - 8:0".to_vec());
    assert_eq!(edit_cursor_col(&EditorState::Watering { field: 1 }), 0);
    assert_eq!(edit_cursor_col(&EditorState::Watering { field: 2 }), 15);
}
