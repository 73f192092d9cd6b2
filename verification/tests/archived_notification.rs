use chrono::{DateTime, Utc};
use pomodoro::clock::Timestamp;
use pomodoro::notification::archived_notification::ArchivedNotification;
use pomodoro::notification::Notification;

fn stamp(at: DateTime<Utc>) -> Timestamp {
    Timestamp::new(at.timestamp(), at.timestamp_subsec_nanos()).unwrap()
}

fn moment(at: Timestamp) -> DateTime<Utc> {
    DateTime::from_timestamp(at.get_secs(), at.get_nanos()).unwrap()
}

#[test]
fn test_archived_notification_conversion() {
    let now = Utc::now();
    let notification = Notification::new(0, 25, 5, stamp(now));
    let archived_notification = ArchivedNotification::from(notification);

    assert_eq!(
        now.to_rfc3339_opts(chrono::SecondsFormat::Millis, true),
        moment(archived_notification.get_start_at())
            .to_rfc3339_opts(chrono::SecondsFormat::Millis, true)
    );
}

#[test]
fn test_archived_notification_tabled_impl() {
    let now = Utc::now();
    let notification = Notification::new(0, 25, 5, stamp(now));
    let archived_notification = ArchivedNotification::from(notification);

    let fields = archived_notification.fields();
    assert_eq!(7, fields.len());

    let headers = ArchivedNotification::headers();
    assert_eq!(7, headers.len());
    assert_eq!(
        vec![
            "id".to_string(),
            "work_time".to_string(),
            "break_time".to_string(),
            "started_at".to_string(),
            "expired_at (work)".to_string(),
            "expired_at (break)".to_string(),
            "description".to_string(),
        ],
        headers
    );
}

#[test]
fn archiving_keeps_the_start() {
    let created_at = Timestamp::new(1_650_000_000, 42).unwrap();
    for (work, rest) in [(25u16, 5u16), (0, 5), (25, 0), (65535, 65535)] {
        let archived = ArchivedNotification::archive(Notification::new(8, work, rest, created_at));
        assert_eq!(created_at, archived.get_start_at());
    }
}

#[test]
fn archived_fields_name_skipped_phases() {
    let created_at = Timestamp::new(1_650_000_000, 0).unwrap();
    let archived = ArchivedNotification::archive(Notification::new(8, 0, 5, created_at));
    let fields = archived.fields_with("s".to_string(), "w".to_string(), "b".to_string());
    assert_eq!(vec!["8", "0", "5", "s", "N/A", "b", "sample"], fields);
    let archived = ArchivedNotification::archive(Notification::new(9, 25, 0, created_at));
    let fields = archived.fields_with("s".to_string(), "w".to_string(), "b".to_string());
    assert_eq!(vec!["9", "25", "0", "s", "w", "N/A", "sample"], fields);
}
