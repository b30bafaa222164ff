use notify_scheduler::clock::{TimeOfDay, TriggerWindow};
use notify_scheduler::config::{
    distinct_recipients, Config, NotificationConfig, NotificationKind, Subscription,
};
use notify_scheduler::health::health_target;

fn config() -> Config {
    Config {
        admin: 1,
        alert_users: vec![10, 20, 10],
        alert_zip_codes: vec![94105, 10001],
        debug: false,
        discord: String::from("token"),
        healthcheck: String::new(),
        openuv: String::from("key"),
        user_agent: String::from("agent"),
        uv_users: vec![30],
        uv_zip_codes: vec![60601],
    }
}

#[test]
fn distinct_recipients_keeps_first_occurrences_in_order() {
    assert_eq!(distinct_recipients(&vec![3, 1, 3, 2, 1, 3]), vec![3, 1, 2]);
    assert_eq!(distinct_recipients(&vec![7, 7, 7]), vec![7]);
    assert_eq!(distinct_recipients(&vec![1, 2, 3]), vec![1, 2, 3]);
    assert_eq!(distinct_recipients(&vec![]), Vec::<u64>::new());
}

#[test]
fn subscription_holds_what_it_was_made_of() {
    let window = TriggerWindow::morning();
    let subscription =
        Subscription::new(NotificationKind::UvForecast, vec![5, 4, 5], &vec![9, 8, 9], window);
    assert_eq!(subscription.kind(), NotificationKind::UvForecast);
    assert_eq!(subscription.subjects(), &vec![5, 4, 5]);
    assert_eq!(subscription.recipients(), &vec![9, 8]);
    assert_eq!(subscription.window(), window);
}

#[test]
fn subscription_is_due_inside_its_window_when_it_has_subjects() {
    let window = TriggerWindow::morning();
    let inside = TimeOfDay::from_hms(8, 30, 0).unwrap();
    let outside = TimeOfDay::from_hms(8, 31, 0).unwrap();
    let full = Subscription::new(NotificationKind::Alerts, vec![1], &vec![2], window);
    assert!(full.is_due(inside));
    assert!(!full.is_due(outside));
    let empty = Subscription::new(NotificationKind::Alerts, vec![], &vec![2], window);
    assert!(!empty.is_due(inside));
    let nobody = Subscription::new(NotificationKind::Alerts, vec![1], &vec![], window);
    assert!(nobody.is_due(inside));
}

#[test]
fn snapshot_has_the_alerts_first_and_the_uv_forecast_second() {
    let window = TriggerWindow::morning();
    let snapshot = NotificationConfig::snapshot(&config(), window);
    assert_eq!(snapshot.len(), 2);
    let alerts = snapshot.kind_at(0);
    assert_eq!(alerts.kind(), NotificationKind::Alerts);
    assert_eq!(alerts.subjects(), &vec![94105, 10001]);
    assert_eq!(alerts.recipients(), &vec![10, 20]);
    assert_eq!(alerts.window(), window);
    let uv = snapshot.kind_at(1);
    assert_eq!(uv.kind(), NotificationKind::UvForecast);
    assert_eq!(uv.subjects(), &vec![60601]);
    assert_eq!(uv.recipients(), &vec![30]);
    assert_eq!(uv.window(), window);
}

#[test]
fn snapshot_grows_by_one_kind_at_a_time() {
    let window = TriggerWindow::morning();
    let empty = NotificationConfig::new();
    assert_eq!(empty.len(), 0);
    let one = empty.with(Subscription::new(NotificationKind::Alerts, vec![1], &vec![2], window));
    assert_eq!(one.len(), 1);
    let two = one.with(Subscription::new(NotificationKind::UvForecast, vec![3], &vec![4], window));
    assert_eq!(two.len(), 2);
    assert_eq!(two.kind_at(0).kind(), NotificationKind::Alerts);
    assert_eq!(two.kind_at(1).kind(), NotificationKind::UvForecast);
}

#[test]
fn no_monitor_no_ping() {
    assert_eq!(health_target(&config()), None);
}

#[test]
fn monitor_is_pinged_at_its_url() {
    let mut config = config();
    config.healthcheck = String::from("https://monitor.example/ping/abc");
    assert_eq!(health_target(&config), Some("https://monitor.example/ping/abc"));
}
