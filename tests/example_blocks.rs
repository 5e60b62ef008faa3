use blockcore::api::MouseButton;
use blockcore::disk_space::{disk_figures, followed_figure, parse_alert_unit, AlertUnit, DiskFigures, InfoType};
use blockcore::pomodoro::{
    countdown_tick, is_last_pomodoro, minutes_left, phase_secs, read_number_step, stops_session, NumberInput, Phase,
    Session, Tick,
};

#[test]
fn alert_units_parse() {
    assert_eq!(parse_alert_unit(None), Ok(None));
    assert_eq!(parse_alert_unit(Some("GB")), Ok(Some(AlertUnit::Giga)));
    assert_eq!(parse_alert_unit(Some("B")), Ok(Some(AlertUnit::Bytes)));
    assert_eq!(parse_alert_unit(Some("TB")), Ok(Some(AlertUnit::Tera)));
    assert_eq!(parse_alert_unit(Some("gb")), Err("gb".to_string()));
}

#[test]
fn disk_figures_from_counts() {
    let f = disk_figures(100, 40, 30, 4096, 4096).unwrap();
    assert_eq!(f, DiskFigures { total: 409600, used: 245760, available: 122880, free: 163840 });
    assert_eq!(followed_figure(InfoType::Used, f), 245760);
    assert_eq!(followed_figure(InfoType::Free, f), 163840);
    assert_eq!(followed_figure(InfoType::default_type(), f), 122880);
    assert_eq!(disk_figures(10, 11, 0, 1, 1), None);
    assert_eq!(disk_figures(u64::MAX, 0, 0, 2, 1), None);
}

#[test]
fn number_entry_by_wheel() {
    assert_eq!(read_number_step(25, MouseButton::WheelUp), NumberInput::Editing(26));
    assert_eq!(read_number_step(0, MouseButton::WheelDown), NumberInput::Editing(0));
    assert_eq!(read_number_step(5, MouseButton::WheelDown), NumberInput::Editing(4));
    assert_eq!(read_number_step(u64::MAX, MouseButton::WheelUp), NumberInput::Editing(u64::MAX));
    assert_eq!(read_number_step(4, MouseButton::Right), NumberInput::Editing(4));
    assert_eq!(read_number_step(4, MouseButton::Left), NumberInput::Done(4));
}

#[test]
fn minutes_round_up() {
    assert_eq!(minutes_left(0), 0);
    assert_eq!(minutes_left(1), 1);
    assert_eq!(minutes_left(60), 1);
    assert_eq!(minutes_left(61), 2);
    assert_eq!(minutes_left(1500), 25);
    assert_eq!(phase_secs(25), Some(1500));
    assert_eq!(phase_secs(u64::MAX), None);
    assert!(is_last_pomodoro(3, 4));
    assert!(!is_last_pomodoro(0, 4));
}

#[test]
fn session_alternates_tasks_and_breaks() {
    assert_eq!(Session::start(0), None);
    let s = Session::start(2).unwrap();
    assert_eq!(s, Session { index: 0, count: 2, phase: Phase::Task });
    let s = s.next().unwrap();
    assert_eq!(s, Session { index: 0, count: 2, phase: Phase::Break });
    let s = s.next().unwrap();
    assert_eq!(s, Session { index: 1, count: 2, phase: Phase::Task });
    assert_eq!(s.next(), None);
}

#[test]
fn countdown_ticks_and_stop_button() {
    assert_eq!(countdown_tick(1500, 0), Tick::Remaining(25));
    assert_eq!(countdown_tick(1500, 1441), Tick::Remaining(1));
    assert_eq!(countdown_tick(1500, 1439), Tick::Remaining(2));
    assert_eq!(countdown_tick(1500, 1500), Tick::Expired);
    assert_eq!(countdown_tick(0, 0), Tick::Expired);
    assert!(stops_session(MouseButton::Middle));
    assert!(!stops_session(MouseButton::Left));
}
