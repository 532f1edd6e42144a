use chrono::{Datelike, Local, TimeZone, Timelike};
use rust_clock_gui::gui_clock;
use rust_clock_gui::rust_clock_gui::utils::{decompose_duration, Time};
use rust_clock_gui::rust_clock_gui::PID;
use rust_clock_gui::Clock;

fn seconds_dial(angles: &gui_clock::ClockAngles) -> f32 {
    (angles.seconds as f64 / 1000.0) as f32
}

fn minutes_dial(angles: &gui_clock::ClockAngles) -> f32 {
    (angles.minutes as f64 / 60_000.0) as f32
}

fn hours_dial(angles: &gui_clock::ClockAngles) -> f32 {
    (angles.hours as f64 / 3_600_000.0) as f32
}

fn start_of(now: &chrono::DateTime<Local>) -> Time {
    Time::new(
        now.year(),
        now.month(),
        now.day(),
        now.hour(),
        now.minute(),
        now.second(),
        now.timestamp_subsec_millis(),
    )
}

fn decompose(duration: chrono::TimeDelta, now: &chrono::DateTime<Local>, to_seconds_only: bool) -> Time {
    decompose_duration(duration.num_nanoseconds().unwrap(), &start_of(now), to_seconds_only).unwrap()
}

#[test]
fn test_clock_now() {
    let time1 = Clock::now();
    let time2 = Clock::now();
    assert!(time2 >= time1);
}

#[test]
fn test_decompose_from_milliseconds() {
    let milliseconds = 1001;

    let duration = chrono::Duration::milliseconds(milliseconds as i64);
    let current_datetime = Local.with_ymd_and_hms(2025, 4, 27, 0, 0, 0).unwrap();

    let expected_date = current_datetime + chrono::Duration::milliseconds(milliseconds as i64);
    let components = decompose(duration, &current_datetime, false);

    assert_eq!(components.year, expected_date.year());
    assert_eq!(components.month, expected_date.month());
    assert_eq!(components.day, expected_date.day());
    assert_eq!(components.hours, 0);
    assert_eq!(components.minutes, 0);
    assert_eq!(components.seconds, 1);
    assert_eq!(components.milliseconds, 1);
}

#[test]
fn test_decompose_one_minute_and_a_second() {
    let seconds = 61;

    let duration = chrono::Duration::seconds(seconds as i64);
    let current_datetime = Local.with_ymd_and_hms(2025, 4, 27, 0, 0, 0).unwrap();

    let expected_date = current_datetime + chrono::Duration::seconds(seconds as i64);
    let components = decompose(duration, &current_datetime, false);

    assert_eq!(components.year, expected_date.year());
    assert_eq!(components.month, expected_date.month());
    assert_eq!(components.day, expected_date.day());
    assert_eq!(components.hours, 0);
    assert_eq!(components.minutes, 1);
    assert_eq!(components.seconds, 1);
    assert_eq!(components.milliseconds, 0);
}

#[test]
fn test_decompose_exact_one_hour() {
    let seconds = 3600;

    let duration = chrono::Duration::seconds(seconds as i64);
    let current_datetime = Local.with_ymd_and_hms(2025, 4, 27, 0, 0, 0).unwrap();

    let expected_date = current_datetime + chrono::Duration::seconds(seconds as i64);
    let components = decompose(duration, &current_datetime, false);

    assert_eq!(components.year, expected_date.year());
    assert_eq!(components.month, expected_date.month());
    assert_eq!(components.day, expected_date.day());
    assert_eq!(components.hours, 1);
    assert_eq!(components.minutes, 0);
    assert_eq!(components.seconds, 0);
    assert_eq!(components.milliseconds, 0);
}

#[test]
fn test_decompose_hours_minutes_seconds_millis_to_seconds_only() {
    let milliseconds = 2 * 60 * 60 * 1000 + 34 * 60 * 1000 + 56 * 1000 + 789;

    let duration = chrono::Duration::milliseconds(milliseconds as i64);
    let current_datetime = Local.with_ymd_and_hms(2025, 4, 27, 0, 0, 0).unwrap();

    let expected_date = current_datetime + chrono::Duration::milliseconds(milliseconds as i64);
    let components = decompose(duration, &current_datetime, true);

    assert_eq!(components.year, expected_date.year());
    assert_eq!(components.month, expected_date.month());
    assert_eq!(components.day, expected_date.day());
    assert_eq!(current_datetime.day(), expected_date.day());
    assert_eq!(components.hours, 0);
    assert_eq!(components.minutes, 0);
    assert_eq!(components.seconds, 9296);
    assert_eq!(components.milliseconds, 789);
}

#[test]
fn test_decompose_hours_minutes_seconds_millis() {
    let milliseconds = 2 * 60 * 60 * 1000 + 34 * 60 * 1000 + 56 * 1000 + 789;

    let duration = chrono::Duration::milliseconds(milliseconds as i64);
    let current_datetime = Local.with_ymd_and_hms(2025, 4, 27, 0, 0, 0).unwrap();

    let expected_date = current_datetime + chrono::Duration::milliseconds(milliseconds as i64);
    let components = decompose(duration, &current_datetime, false);

    assert_eq!(components.year, expected_date.year());
    assert_eq!(components.month, expected_date.month());
    assert_eq!(components.day, expected_date.day());
    assert_eq!(current_datetime.day(), expected_date.day());
    assert_eq!(components.hours, 2);
    assert_eq!(components.minutes, 34);
    assert_eq!(components.seconds, 56);
    assert_eq!(components.milliseconds, 789);
}

#[test]
fn test_decompose_hours_minutes_seconds_millis_more_than_one_day_to_seconds_only() {
    let milliseconds = 26 * 60 * 60 * 1000 + 22 * 60 * 1000 + 34 * 1000 + 329;

    let duration = chrono::Duration::milliseconds(milliseconds as i64);
    let current_datetime = Local.with_ymd_and_hms(2025, 4, 27, 0, 0, 0).unwrap();

    let expected_date = current_datetime + chrono::Duration::milliseconds(milliseconds as i64);
    let components = decompose(duration, &current_datetime, true);

    assert_eq!(components.year, expected_date.year());
    assert_eq!(components.month, expected_date.month());
    assert_eq!(components.day, expected_date.day());
    assert_eq!(current_datetime.day(), expected_date.day() - 1);
    assert_eq!(components.hours, 0);
    assert_eq!(components.minutes, 0);
    assert_eq!(components.seconds, 94954);
    assert_eq!(components.milliseconds, 329);
}

#[test]
fn test_decompose_hours_minutes_seconds_millis_more_than_one_day() {
    let milliseconds = 26 * 60 * 60 * 1000 + 22 * 60 * 1000 + 34 * 1000 + 329;

    let duration = chrono::Duration::milliseconds(milliseconds as i64);
    let current_datetime = Local.with_ymd_and_hms(2025, 4, 27, 0, 0, 0).unwrap();

    let expected_date = current_datetime + chrono::Duration::milliseconds(milliseconds as i64);
    let components = decompose(duration, &current_datetime, false);

    assert_eq!(components.year, expected_date.year());
    assert_eq!(components.month, expected_date.month());
    assert_eq!(components.day, expected_date.day());
    assert_eq!(current_datetime.day(), expected_date.day() - 1);
    assert_eq!(components.hours, 2);
    assert_eq!(components.minutes, 22);
    assert_eq!(components.seconds, 34);
    assert_eq!(components.milliseconds, 329);
}

#[test]
fn test_decompose_hours_minutes_seconds_millis_more_than_one_month_to_seconds_only() {
    let milliseconds: i64 =
        35 * 24 * 60 * 60 * 1000 + 5 * 60 * 60 * 1000 + 22 * 60 * 1000 + 34 * 1000 + 329;

    let duration = chrono::Duration::milliseconds(milliseconds);
    let current_datetime = Local.with_ymd_and_hms(2025, 4, 27, 0, 0, 0).unwrap();

    let expected_date = current_datetime + chrono::Duration::milliseconds(milliseconds as i64);
    let components = decompose(duration, &current_datetime, true);

    assert_eq!(components.year, expected_date.year());
    assert_eq!(components.month, expected_date.month());
    assert_eq!(current_datetime.month(), expected_date.month() - 2);
    assert_eq!(components.day, expected_date.day());
    assert_eq!(current_datetime.day(), expected_date.day() + 26);
    assert_eq!(components.hours, 0);
    assert_eq!(components.minutes, 0);
    assert_eq!(components.seconds, 3043354);
    assert_eq!(components.milliseconds, 329);
}

#[test]
fn test_decompose_hours_minutes_seconds_millis_more_than_one_month() {
    let milliseconds: i64 =
        35 * 24 * 60 * 60 * 1000 + 5 * 60 * 60 * 1000 + 22 * 60 * 1000 + 34 * 1000 + 329;

    let duration = chrono::Duration::milliseconds(milliseconds);
    let current_datetime = Local.with_ymd_and_hms(2025, 4, 27, 0, 0, 0).unwrap();

    let expected_date = current_datetime + chrono::Duration::milliseconds(milliseconds as i64);
    let components = decompose(duration, &current_datetime, false);

    assert_eq!(components.year, expected_date.year());
    assert_eq!(components.month, expected_date.month());
    assert_eq!(current_datetime.month(), expected_date.month() - 2);
    assert_eq!(components.day, expected_date.day());
    assert_eq!(current_datetime.day(), expected_date.day() + 26);
    assert_eq!(components.hours, 5);
    assert_eq!(components.minutes, 22);
    assert_eq!(components.seconds, 34);
    assert_eq!(components.milliseconds, 329);
}

#[test]
fn test_midnight_clock_angles() {
    let time = gui_clock::Time::new(0, 0, 0, 0);
    let angles = gui_clock::calculate_clock_angles(&time);
    assert_eq!(seconds_dial(&angles), 0.0);
    assert_eq!(minutes_dial(&angles), 0.0);
    assert_eq!(hours_dial(&angles), 0.0);
}

#[test]
fn test_noon_clock_angles() {
    let time = gui_clock::Time::new(12, 0, 0, 0);
    let angles = gui_clock::calculate_clock_angles(&time);
    assert_eq!(seconds_dial(&angles), 0.0);
    assert_eq!(minutes_dial(&angles), 0.0);
    assert_eq!(hours_dial(&angles), 12.0);
}

#[test]
fn test_maximum_clock_angles() {
    let time = gui_clock::Time::new(23, 59, 59, 0);
    let angles = gui_clock::calculate_clock_angles(&time);
    assert_eq!(seconds_dial(&angles), 59.0);
    assert_eq!(minutes_dial(&angles), 59.983334);
    assert_eq!(hours_dial(&angles), 23.999722);
}

#[test]
fn test_half_past_three_clock_angles() {
    let time = gui_clock::Time::new(3, 30, 0, 0);
    let angles = gui_clock::calculate_clock_angles(&time);
    assert_eq!(seconds_dial(&angles), 0.0);
    assert_eq!(minutes_dial(&angles), 30.0);
    assert_eq!(hours_dial(&angles), 3.5);
}

#[test]
fn test_circled_clock_angles() {
    let time = gui_clock::Time::new(33, 65, 61, 2);
    let angles = gui_clock::calculate_clock_angles(&time);
    assert_eq!(seconds_dial(&angles), 61.002);
    assert_eq!(minutes_dial(&angles), 66.0167);
    assert_eq!(hours_dial(&angles), 34.100277);
}

#[test]
fn test_pid_update() {
    // Gains and errors in thousandths, so outputs are in millionths.
    let mut pid = PID {
        kp: 1000,
        ki: 100,
        kd: 500,
        ..Default::default()
    };

    let output1 = pid.update(1000);
    assert!((output1 as f32 / 1e6 - (1.0 + 0.1 + 0.5)).abs() < f32::EPSILON);

    let output2 = pid.update(500);
    let (kp, ki, kd) = (pid.kp as f32 / 1e3, pid.ki as f32 / 1e3, pid.kd as f32 / 1e3);
    let expected = 0.5 * kp + (1.0 + 0.5) * ki + (0.5 - 1.0) * kd;
    assert!((output2 as f32 / 1e6 - expected).abs() < f32::EPSILON);
}
