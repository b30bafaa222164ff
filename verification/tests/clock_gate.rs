use notify_scheduler::clock::{
    inside_window, TimeOfDay, TriggerWindow, SECONDS_PER_DAY, TICKS_PER_SLOT,
};

fn at(hour: u32, min: u32, sec: u32) -> TimeOfDay {
    TimeOfDay::from_hms(hour, min, sec).unwrap()
}

fn morning() -> TriggerWindow {
    TriggerWindow::new(at(8, 30, 0), at(8, 31, 0))
}

#[test]
fn start_of_window_is_inside() {
    assert!(inside_window(at(8, 30, 0), morning()));
}

#[test]
fn end_of_window_is_outside() {
    assert!(!inside_window(at(8, 31, 0), morning()));
}

#[test]
fn every_second_of_the_window_is_inside() {
    for sec in 0..60 {
        assert!(inside_window(at(8, 30, sec), morning()));
    }
}

#[test]
fn last_tick_before_the_end_is_inside() {
    let now = TimeOfDay::new(8 * 3600 + 30 * 60 + 59, 999_999_999).unwrap();
    assert!(inside_window(now, morning()));
}

#[test]
fn tick_before_the_start_is_outside() {
    let now = TimeOfDay::new(8 * 3600 + 29 * 60 + 59, 999_999_999).unwrap();
    assert!(!inside_window(now, morning()));
}

#[test]
fn leap_second_before_the_start_is_outside() {
    // 08:29:59 with a fraction of more than a second is still before 08:30:00.
    let now = TimeOfDay::new(8 * 3600 + 29 * 60 + 59, 1_999_999_999).unwrap();
    assert!(!inside_window(now, morning()));
    assert!(now.is_before(&at(8, 30, 0)));
}

#[test]
fn first_tick_after_the_start_is_inside() {
    let now = TimeOfDay::new(8 * 3600 + 30 * 60, 1).unwrap();
    assert!(inside_window(now, morning()));
}

#[test]
fn times_far_from_the_window_are_outside() {
    assert!(!inside_window(at(0, 0, 0), morning()));
    assert!(!inside_window(at(8, 29, 59), morning()));
    assert!(!inside_window(at(8, 31, 1), morning()));
    assert!(!inside_window(at(20, 30, 0), morning()));
    assert!(!inside_window(at(23, 59, 59), morning()));
}

#[test]
fn window_that_ends_before_it_starts_is_empty() {
    let window = TriggerWindow::new(at(23, 0, 0), at(1, 0, 0));
    assert!(!inside_window(at(23, 30, 0), window));
    assert!(!inside_window(at(0, 30, 0), window));
    assert!(!inside_window(at(12, 0, 0), window));
}

#[test]
fn window_of_no_width_is_empty() {
    let window = TriggerWindow::new(at(8, 30, 0), at(8, 30, 0));
    assert!(!inside_window(at(8, 30, 0), window));
}

#[test]
fn morning_window_is_the_minute_from_half_past_eight() {
    let window = TriggerWindow::morning();
    assert_eq!(window.start_time().seconds_from_midnight(), 30_600);
    assert_eq!(window.start_time().nanosecond(), 0);
    assert_eq!(window.end_time().seconds_from_midnight(), 30_660);
    assert_eq!(window.end_time().nanosecond(), 0);
    assert_eq!(window, morning());
}

#[test]
fn from_hms_counts_seconds_from_midnight() {
    assert_eq!(at(0, 0, 0).seconds_from_midnight(), 0);
    assert_eq!(at(1, 2, 3).seconds_from_midnight(), 3723);
    assert_eq!(at(8, 30, 0).seconds_from_midnight(), 30_600);
    assert_eq!(at(23, 59, 59).seconds_from_midnight(), 86_399);
    assert_eq!(at(23, 59, 59).nanosecond(), 0);
}

#[test]
fn from_hms_refuses_what_is_no_time() {
    assert!(TimeOfDay::from_hms(24, 0, 0).is_none());
    assert!(TimeOfDay::from_hms(23, 60, 0).is_none());
    assert!(TimeOfDay::from_hms(23, 59, 60).is_none());
    assert!(TimeOfDay::from_hms(u32::MAX, 0, 0).is_none());
}

#[test]
fn new_keeps_its_parts() {
    let time = TimeOfDay::new(3723, 12_345_678).unwrap();
    assert_eq!(time.seconds_from_midnight(), 3723);
    assert_eq!(time.nanosecond(), 12_345_678);
    assert_eq!(TimeOfDay::new(3723, 0), TimeOfDay::from_hms(1, 2, 3));
}

#[test]
fn new_refuses_what_is_no_time() {
    assert!(TimeOfDay::new(SECONDS_PER_DAY, 0).is_none());
    assert!(TimeOfDay::new(0, TICKS_PER_SLOT).is_none());
    assert!(TimeOfDay::new(SECONDS_PER_DAY - 1, TICKS_PER_SLOT - 1).is_some());
}

#[test]
fn is_before_orders_by_second_then_fraction() {
    let a = TimeOfDay::new(10, 5).unwrap();
    let b = TimeOfDay::new(10, 6).unwrap();
    let c = TimeOfDay::new(11, 0).unwrap();
    assert!(a.is_before(&b));
    assert!(b.is_before(&c));
    assert!(a.is_before(&c));
    assert!(!b.is_before(&a));
    assert!(!a.is_before(&a));
}

#[test]
fn local_time_is_a_time_of_day() {
    let now = TimeOfDay::now_local();
    assert!(now.seconds_from_midnight() < SECONDS_PER_DAY);
    assert!(now.nanosecond() < TICKS_PER_SLOT);
}

#[test]
fn local_time_agrees_with_the_clock() {
    let before = chrono::Timelike::num_seconds_from_midnight(&chrono::Local::now().time());
    let now = TimeOfDay::now_local().seconds_from_midnight();
    let after = chrono::Timelike::num_seconds_from_midnight(&chrono::Local::now().time());
    if before <= after {
        assert!(before <= now && now <= after);
    }
}
