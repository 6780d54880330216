use auto_backup::schedule::{add_time, checked_add_time, is_valid_time, ScheduleConfig, Scheduler, TimeSelection};

fn config(unit: TimeSelection, magnitude: i32, daily_hour: i32) -> ScheduleConfig {
    ScheduleConfig::new(unit, magnitude, daily_hour).unwrap()
}

#[test]
fn value_gives_slider_maximum() {
    assert_eq!(TimeSelection::Second.value(), 60);
    assert_eq!(TimeSelection::Minute.value(), 60);
    assert_eq!(TimeSelection::Hour.value(), 24);
    assert_eq!(TimeSelection::Day.value(), 30);
}

#[test]
fn add_time_scales_by_unit() {
    assert_eq!(add_time(5, &TimeSelection::Second), 5);
    assert_eq!(add_time(5, &TimeSelection::Minute), 300);
    assert_eq!(add_time(2, &TimeSelection::Hour), 7200);
    assert_eq!(add_time(3, &TimeSelection::Day), 259200);
    assert_eq!(add_time(0, &TimeSelection::Hour), 0);
}

#[test]
fn names_round_trip() {
    for u in [TimeSelection::Second, TimeSelection::Minute, TimeSelection::Hour, TimeSelection::Day] {
        assert_eq!(TimeSelection::from_name(u.name()), Some(u));
    }
    assert_eq!(TimeSelection::Day.name(), "Day");
    assert_eq!(TimeSelection::from_name("Week"), None);
    assert_eq!(TimeSelection::from_name(""), None);
}

#[test]
fn config_rejects_bad_hour_and_negative_magnitude() {
    assert!(ScheduleConfig::new(TimeSelection::Day, 1, 24).is_none());
    assert!(ScheduleConfig::new(TimeSelection::Day, 1, -1).is_none());
    assert!(ScheduleConfig::new(TimeSelection::Second, -1, 0).is_none());
    assert!(ScheduleConfig::new(TimeSelection::Day, 0, 23).is_some());
}

#[test]
fn idle_scheduler_is_never_due() {
    let mut s = Scheduler::new(config(TimeSelection::Second, 1, 0));
    assert!(!s.poll(100));
    assert!(!s.poll(1000));
    assert_eq!(s.next_fire, None);
    assert_eq!(s.remaining(100), None);
}

#[test]
fn interval_fires_once_per_interval() {
    for (unit, secs) in [(TimeSelection::Second, 1i64), (TimeSelection::Minute, 60), (TimeSelection::Hour, 3600)] {
        let m = 3;
        let step = m as i64 * secs;
        let mut s = Scheduler::new(config(unit, m, 0));
        let t0 = 1_000_000i64;
        s.start(config(unit, m, 0));
        assert!(!s.poll(t0));
        assert_eq!(s.next_fire, Some(t0 + step));
        let mut fires = 0;
        let mut t = t0;
        while t <= t0 + 10 * step {
            if s.poll(t) {
                fires += 1;
            }
            assert_eq!(fires as i64, (t - t0) / step);
            t += 1;
        }
        assert_eq!(fires, 10);
        assert_eq!(s.next_fire, Some(t0 + 11 * step));
    }
}

#[test]
fn interval_not_due_before_first_interval() {
    let c = config(TimeSelection::Minute, 2, 0);
    let mut s = Scheduler::new(c);
    s.start(c);
    assert!(!s.poll(0));
    assert!(!s.poll(119));
    assert_eq!(s.remaining(100), Some(20));
    assert!(s.poll(120));
    assert!(!s.poll(121));
    assert_eq!(s.next_fire, Some(240));
}

#[test]
fn late_poll_keeps_fires_pinned() {
    let c = config(TimeSelection::Second, 10, 0);
    let mut s = Scheduler::new(c);
    s.start(c);
    assert!(!s.poll(0));
    assert!(s.poll(25));
    assert_eq!(s.next_fire, Some(20));
    assert!(s.poll(25));
    assert_eq!(s.next_fire, Some(30));
    assert!(!s.poll(25));
}

#[test]
fn zero_magnitude_is_due_on_every_poll_after_start() {
    let c = config(TimeSelection::Second, 0, 0);
    let mut s = Scheduler::new(c);
    s.start(c);
    assert!(!s.poll(50));
    assert!(s.poll(50));
    assert!(s.poll(51));
    assert!(s.poll(51));
}

#[test]
fn daily_before_hour_fires_today() {
    let day = 86400i64;
    let start = 20000 * day + 8 * 3600 + 15 * 60;
    let c = config(TimeSelection::Day, 1, 9);
    let mut s = Scheduler::new(c);
    s.start(c);
    assert!(!s.poll(start));
    assert_eq!(s.next_fire, Some(20000 * day + 9 * 3600));
    assert!(!s.poll(20000 * day + 9 * 3600 - 1));
    assert!(s.poll(20000 * day + 9 * 3600));
    assert_eq!(s.next_fire, Some(20001 * day + 9 * 3600));
}

#[test]
fn daily_at_or_after_hour_fires_tomorrow() {
    let day = 86400i64;
    let c = config(TimeSelection::Day, 1, 9);
    let mut s = Scheduler::new(c);
    s.start(c);
    assert!(!s.poll(20000 * day + 9 * 3600));
    assert_eq!(s.next_fire, Some(20001 * day + 9 * 3600));
    let mut s = Scheduler::new(c);
    s.start(c);
    assert!(!s.poll(20000 * day + 23 * 3600 + 59 * 60));
    assert_eq!(s.next_fire, Some(20001 * day + 9 * 3600));
}

#[test]
fn daily_boundary_hours() {
    let day = 86400i64;
    let c0 = config(TimeSelection::Day, 1, 0);
    let mut s = Scheduler::new(c0);
    s.start(c0);
    assert!(!s.poll(100 * day));
    assert_eq!(s.next_fire, Some(101 * day));
    let c23 = config(TimeSelection::Day, 1, 23);
    let mut s = Scheduler::new(c23);
    s.start(c23);
    assert!(!s.poll(100 * day + 22 * 3600 + 3599));
    assert_eq!(s.next_fire, Some(100 * day + 23 * 3600));
}

#[test]
fn daily_before_epoch() {
    let day = 86400i64;
    let c = config(TimeSelection::Day, 1, 6);
    let mut s = Scheduler::new(c);
    s.start(c);
    assert!(!s.poll(-day + 3600));
    assert_eq!(s.next_fire, Some(-day + 6 * 3600));
}

#[test]
fn daily_fires_every_twenty_four_hours() {
    let day = 86400i64;
    let c = config(TimeSelection::Day, 1, 12);
    let mut s = Scheduler::new(c);
    s.start(c);
    s.poll(500 * day);
    let mut prev = s.next_fire.unwrap();
    for _ in 0..5 {
        assert!(s.poll(prev));
        let next = s.next_fire.unwrap();
        assert_eq!(next - prev, day);
        prev = next;
    }
}

#[test]
fn restart_recomputes_from_now() {
    let c = config(TimeSelection::Minute, 1, 0);
    let mut s = Scheduler::new(c);
    s.start(c);
    assert!(!s.poll(1000));
    assert_eq!(s.next_fire, Some(1060));
    s.stop();
    assert_eq!(s.next_fire, None);
    assert!(!s.running);
    assert!(!s.poll(1030));
    s.start(c);
    assert!(!s.poll(1030));
    assert_eq!(s.next_fire, Some(1090));
    assert!(!s.poll(1060));
    assert!(s.poll(1090));
}

#[test]
fn default_unit_is_second() {
    assert_eq!(TimeSelection::default(), TimeSelection::Second);
}

#[test]
fn checked_add_time_reports_overflow() {
    assert_eq!(checked_add_time(30, &TimeSelection::Day), Some(2592000));
    assert_eq!(checked_add_time(24855, &TimeSelection::Day), Some(2147472000));
    assert_eq!(checked_add_time(24856, &TimeSelection::Day), None);
    assert_eq!(checked_add_time(-3, &TimeSelection::Minute), Some(-180));
    assert_eq!(checked_add_time(i32::MAX, &TimeSelection::Second), Some(i32::MAX));
}

#[test]
fn valid_time_bounds() {
    assert!(is_valid_time(0));
    assert!(is_valid_time(1 << 60));
    assert!(is_valid_time(-(1 << 60)));
    assert!(!is_valid_time((1 << 60) + 1));
    assert!(!is_valid_time(i64::MIN));
}

#[test]
fn interval_window_polled_once_with_wide_gaps() {
    // One poll in each ten-second window, but consecutive polls up to 19 s apart.
    let c = config(TimeSelection::Second, 10, 0);
    let mut s = Scheduler::new(c);
    s.start(c);
    assert!(!s.poll(0));
    let mut fires = 0;
    for t in [10i64, 29, 30, 49, 50, 69] {
        if s.poll(t) {
            fires += 1;
        }
        assert_eq!(fires as i64, t / 10);
    }
    assert_eq!(s.next_fire, Some(70));
}
