use rustaid::date_time::sample_date_time;
use rustaid::date_time::some_date_time;
use rustaid::date_time::some_utc_date_time;
use rustaid::date_time::Timestamp;
use rustaid::date_time::Zone;
use rustaid::date_time::END_EPOCH_MILLIS;
use rustaid::date_time::FIRST_EPOCH_MILLIS;

#[test]
fn can_generate_some_local_date_time() {
    let date_time: Timestamp = some_date_time();
    assert_ne!(date_time, Timestamp { zone: Zone::Local, epoch_millis: 0 });
}

#[test]
fn can_generate_some_local_date_time_before() {
    let date_time: Timestamp = some_date_time();
    assert_ne!(date_time, Timestamp { zone: Zone::Local, epoch_millis: 0 });
}

#[test]
fn can_generate_some_local_date_time_after() {
    let date_time: Timestamp = some_date_time();
    assert_ne!(date_time, Timestamp { zone: Zone::Local, epoch_millis: 0 });
}

#[test]
fn can_generate_some_utc_local_date_time() {
    let date_time: Timestamp = some_utc_date_time();
    assert_ne!(date_time, Timestamp { zone: Zone::Utc, epoch_millis: 0 });
}

#[test]
fn date_time_bounds_are_one_millisecond_and_the_year_3000() {
    assert_eq!(FIRST_EPOCH_MILLIS, 1);
    assert_eq!(END_EPOCH_MILLIS, 32_503_683_600_000);
}

#[test]
fn date_times_lie_after_the_epoch_and_before_the_end() {
    for _ in 0..1000 {
        let local = some_date_time();
        assert_eq!(local.zone, Zone::Local);
        assert!(local.epoch_millis >= 1);
        assert!(local.epoch_millis < 32_503_683_600_000);
        let utc = some_utc_date_time();
        assert_eq!(utc.zone, Zone::Utc);
        assert!(utc.epoch_millis >= 1);
        assert!(utc.epoch_millis < 32_503_683_600_000);
    }
}

#[test]
fn date_time_is_in_the_zone_asked_for() {
    assert_eq!(sample_date_time(Zone::Local).zone, Zone::Local);
    assert_eq!(sample_date_time(Zone::Utc).zone, Zone::Utc);
}

#[test]
fn date_times_differ_from_draw_to_draw() {
    let first = some_utc_date_time();
    assert!((0..100).any(|_| some_utc_date_time() != first));
}
