use chrono::{Duration, Local, NaiveDate, NaiveDateTime};
use lajp_fi::activity::{Activity, Elapsed, HeartBeat, IndexActivity};

fn epoch() -> NaiveDateTime {
    NaiveDate::from_ymd_opt(2024, 1, 1).unwrap().and_hms_opt(0, 0, 0).unwrap()
}

fn heartbeat() -> HeartBeat {
    HeartBeat {
        project_name: Some("site".to_string()),
        editor_name: Some("vim".to_string()),
        hostname: None,
        language: Some("rust".to_string()),
    }
}

fn activity(started: NaiveDateTime, duration: i32) -> Activity {
    Activity { started, duration, heartbeat: heartbeat() }
}

fn shown(active: bool, hours: i64, minutes: i64, seconds: i64) -> IndexActivity {
    IndexActivity {
        active,
        seconds: Some(seconds),
        minutes: Some(minutes),
        hours: Some(hours),
        project_name: Some("site".to_string()),
        editor_name: Some("vim".to_string()),
        hostname: None,
        language: Some("rust".to_string()),
    }
}

fn at(seconds: i64, nanos: i32, duration: i32) -> IndexActivity {
    IndexActivity::at(activity(epoch(), duration), Elapsed { seconds, nanos })
}

#[test]
fn no_activity_shows_nothing() {
    let idle = IndexActivity {
        active: false,
        seconds: None,
        minutes: None,
        hours: None,
        project_name: None,
        editor_name: None,
        hostname: None,
        language: None,
    };
    assert_eq!(IndexActivity::idle(), idle);
    assert_eq!(IndexActivity::from(None), idle);
}

#[test]
fn time_since_the_start_is_split_into_hours_minutes_and_seconds() {
    assert_eq!(at(3725, 0, 3725), shown(true, 1, 2, 5));
    assert_eq!(at(0, 0, 0), shown(true, 0, 0, 0));
    assert_eq!(at(59, 999_999_999, 0), shown(true, 0, 0, 59));
    assert_eq!(at(60, 0, 0), shown(true, 0, 1, 0));
    assert_eq!(at(3599, 0, 3000), shown(true, 0, 59, 59));
    assert_eq!(at(3600, 0, 3000), shown(true, 1, 0, 0));
    assert_eq!(at(360_000, 0, 360_000), shown(true, 100, 0, 0));
}

#[test]
fn hours_are_not_cut_at_a_day() {
    assert_eq!(at(90_061, 0, 0), shown(false, 25, 1, 1));
}

#[test]
fn activity_counts_as_going_on_for_a_quarter_of_an_hour_past_its_record() {
    assert_eq!(at(900, 0, 0), shown(true, 0, 15, 0));
    assert_eq!(at(900, 1, 0), shown(false, 0, 15, 0));
    assert_eq!(at(901, 0, 0), shown(false, 0, 15, 1));
    assert_eq!(at(1000, 0, 100), shown(true, 0, 16, 40));
    assert_eq!(at(1000, 1, 100), shown(false, 0, 16, 40));
    assert_eq!(at(1000, 0, 99), shown(false, 0, 16, 40));
    assert_eq!(at(1000, 999_999_999, 101), shown(true, 0, 16, 40));
}

#[test]
fn a_negative_record_shortens_the_grace() {
    assert_eq!(at(800, 0, -100), shown(true, 0, 13, 20));
    assert_eq!(at(800, 1, -100), shown(false, 0, 13, 20));
    assert_eq!(at(900, 0, i32::MIN), shown(false, 0, 15, 0));
    assert_eq!(at(1_000_000, 0, i32::MAX), shown(true, 277, 46, 40));
}

#[test]
fn a_start_in_the_future_gives_negative_parts() {
    assert_eq!(at(-61, 0, 0), shown(true, 0, -1, -1));
    assert_eq!(at(-3725, -5, 0), shown(true, -1, -2, -5));
    assert_eq!(at(-59, 0, 0), shown(true, 0, 0, -59));
    assert_eq!(at(0, -1, 0), shown(true, 0, 0, 0));
}

#[test]
fn extreme_spans_do_not_overflow() {
    assert_eq!(
        at(i64::MAX, 999_999_999, i32::MIN),
        shown(false, i64::MAX / 3600, (i64::MAX / 60) % 60, i64::MAX % 60)
    );
    assert_eq!(
        at(i64::MIN, -999_999_999, i32::MAX),
        shown(true, i64::MIN / 3600, (i64::MIN / 60) % 60, i64::MIN % 60)
    );
}

#[test]
fn heartbeat_is_shown_as_it_is() {
    let a = Activity {
        started: epoch(),
        duration: 0,
        heartbeat: HeartBeat {
            project_name: None,
            editor_name: None,
            hostname: Some("box".to_string()),
            language: None,
        },
    };
    let r = IndexActivity::at(a, Elapsed { seconds: 1, nanos: 0 });
    assert_eq!(r.project_name, None);
    assert_eq!(r.editor_name, None);
    assert_eq!(r.hostname, Some("box".to_string()));
    assert_eq!(r.language, None);
}

#[test]
fn summary_as_of_now_measures_from_the_start() {
    let started = Local::now().naive_utc() - Duration::seconds(3725);
    let r = IndexActivity::from(Some(activity(started, 3000)));
    assert!(r.active);
    assert_eq!(r.hours, Some(1));
    assert_eq!(r.minutes, Some(2));
    assert!(matches!(r.seconds, Some(5..=15)));
    assert_eq!(r.project_name, Some("site".to_string()));
    assert_eq!(r.hostname, None);
}

#[test]
fn summary_as_of_now_tells_a_stale_activity() {
    let started = Local::now().naive_utc() - Duration::seconds(7200);
    let r = IndexActivity::from(Some(activity(started, 60)));
    assert!(!r.active);
    assert_eq!(r.hours, Some(2));
    assert_eq!(r.minutes, Some(0));
}

#[test]
fn summary_as_of_now_of_a_start_in_the_future() {
    let started = Local::now().naive_utc() + Duration::seconds(3600 * 5 + 30);
    let r = IndexActivity::from(Some(activity(started, 0)));
    assert!(r.active);
    assert_eq!(r.hours, Some(-5));
    assert_eq!(r.minutes, Some(0));
}
