use pomodoro::configuration::{Configuration, ConfigurationError};
use pomodoro::error::{NotificationError, ParseError, UdsHandlerError, UserInputHandlerError};
use pomodoro::notification::notify::{notify_desktop, notify_discord, notify_slack};
use pomodoro::report::{
    draw_report, generate_configuration_report, generate_notify_report, render_table, Report,
};
use pomodoro::scheduler::Alert;
use pomodoro::wire::DecodeError;

fn cells(report: &Report) -> (&str, &str, &str) {
    (report.ok.as_str(), report.desc.as_str(), report.reason.as_str())
}

#[test]
fn every_channel_has_its_row() {
    let report = generate_notify_report(Ok(()), Ok(()), Ok(()));
    assert_eq!(3, report.len());
    assert_eq!(("O", "Desktop", ""), cells(&report[0]));
    assert_eq!(("O", "Slack", ""), cells(&report[1]));
    assert_eq!(("O", "Discord", ""), cells(&report[2]));

    let report = generate_notify_report(
        Err(NotificationError::Desktop("no bus".to_string())),
        Err(NotificationError::EmptyConfiguration),
        Ok(()),
    );
    assert_eq!(("X", "Desktop", "NotificationError::Desktop\nno bus"), cells(&report[0]));
    assert_eq!(("X", "Slack", "configuration is empty"), cells(&report[1]));
    assert_eq!(("O", "Discord", ""), cells(&report[2]));

    let report = generate_notify_report(
        Ok(()),
        Err(NotificationError::Slack("timeout".to_string())),
        Err(NotificationError::Discord("refused".to_string())),
    );
    assert_eq!(("O", "Desktop", ""), cells(&report[0]));
    assert_eq!(("X", "Slack", "NotificationError::Slack\ntimeout"), cells(&report[1]));
    assert_eq!(("X", "Discord", "NotificationError::Discord\nrefused"), cells(&report[2]));
}

#[test]
fn the_configuration_report_names_what_is_missing() {
    let full = Configuration::new(
        Some("t".to_string()),
        Some("c".to_string()),
        Some("u".to_string()),
        None,
        None,
    );
    let report = generate_configuration_report(&full, None);
    assert_eq!(4, report.len());
    assert_eq!(("O", "no config err", ""), cells(&report[0]));
    assert_eq!(("O", "slack_channel", ""), cells(&report[1]));
    assert_eq!(("O", "slack_token", ""), cells(&report[2]));
    assert_eq!(("O", "discord_webhook_url", ""), cells(&report[3]));

    let report = generate_configuration_report(
        &Configuration::default(),
        Some(ConfigurationError::FileOpenError("denied".to_string())),
    );
    assert_eq!(("X", "no config err", "failed to open the file\ndenied"), cells(&report[0]));
    assert_eq!(("X", "slack_channel", "can not find slack config in json"), cells(&report[1]));
    assert_eq!(("X", "slack_token", "can not find slack config in json"), cells(&report[2]));
    assert_eq!(
        ("X", "discord_webhook_url", "can not find discord config in json"),
        cells(&report[3])
    );

    let only_token = Configuration::new(Some("t".to_string()), None, None, None, None);
    let report = generate_configuration_report(&only_token, Some(ConfigurationError::FileNotFound));
    assert_eq!(("X", "no config err", "can not find configuration file "), cells(&report[0]));
    assert_eq!("X", report[1].ok);
    assert_eq!("O", report[2].ok);

    let only_channel = Configuration::new(None, Some("c".to_string()), None, None, None);
    let report = generate_configuration_report(&only_channel, None);
    assert_eq!("O", report[1].ok);
    assert_eq!("X", report[2].ok);
    assert_eq!("X", report[3].ok);
}

#[test]
fn rows_are_built_and_updated() {
    let row = Report::new("O", "Desktop");
    assert_eq!(("O", "Desktop", ""), cells(&row));
    let row = row.update_reason("first".to_string(), Some("second".to_string()));
    assert_eq!(("O", "Desktop", "first\nsecond"), cells(&row));
    let row = row.update_reason("only".to_string(), None);
    assert_eq!(("O", "Desktop", "only"), cells(&row));
}

#[test]
fn reports_are_drawn_as_tables() {
    let report = generate_notify_report(Ok(()), Err(NotificationError::EmptyConfiguration), Ok(()));
    let drawn = draw_report("notification_type", &report);
    let expected = [
        "┌────┬───────────────────┬────────────────────────┐",
        "│ ok │ notification_type │ reason                 │",
        "├────┼───────────────────┼────────────────────────┤",
        "│ O  │ Desktop           │                        │",
        "├────┼───────────────────┼────────────────────────┤",
        "│ X  │ Slack             │ configuration is empty │",
        "├────┼───────────────────┼────────────────────────┤",
        "│ O  │ Discord           │                        │",
        "└────┴───────────────────┴────────────────────────┘",
    ]
    .join("\n");
    assert_eq!(expected, drawn);
}

#[test]
fn tables_have_one_line_below_the_headers() {
    let headers = vec!["id".to_string(), "description".to_string()];
    let rows =
        vec![vec!["1".to_string(), "sample".to_string()], vec!["12".to_string(), "x".to_string()]];
    let drawn = render_table(&headers, &rows);
    let expected = [
        "┌────┬─────────────┐",
        "│ id │ description │",
        "├────┼─────────────┤",
        "│ 1  │   sample    │",
        "│ 12 │      x      │",
        "└────┴─────────────┘",
    ]
    .join("\n");
    assert_eq!(expected, drawn);

    let drawn = render_table(&headers, &Vec::new());
    let expected = ["┌────┬─────────────┐", "│ id │ description │", "└────┴─────────────┘"].join("\n");
    assert_eq!(expected, drawn);
}

#[test]
fn errors_have_their_texts() {
    let parse = || ParseError::new("bad".to_string());
    let table = [
        (NotificationError::Desktop("x".to_string()), "NotificationError::Desktop", Some("x")),
        (NotificationError::Slack("y".to_string()), "NotificationError::Slack", Some("y")),
        (NotificationError::Discord("z".to_string()), "NotificationError::Discord", Some("z")),
        (NotificationError::EmptyConfiguration, "configuration is empty", None),
        (
            NotificationError::NewNotification(parse()),
            "faield to get new notification: error occurred while parsing: bad",
            Some("error occurred while parsing: bad"),
        ),
        (NotificationError::DeletionFail("gone".to_string()), "gone", None),
        (
            NotificationError::EmptyTimeValues,
            "work_time and break_time both can not be zero both",
            None,
        ),
    ];
    for (error, text, cause) in table {
        assert_eq!(text, error.describe());
        assert_eq!(cause.map(|c| c.to_string()), error.source_text());
    }

    assert_eq!(
        "subcommand is not present at runtime",
        UserInputHandlerError::NoSubcommand.describe()
    );
    assert_eq!(
        "failed to parse: error occurred while parsing: bad",
        UserInputHandlerError::ParseError(parse()).describe()
    );
    assert_eq!(
        "failed to get matches: unknown",
        UserInputHandlerError::CommandMatchError("unknown".to_string()).describe()
    );
    assert_eq!(
        "configuration is empty",
        UserInputHandlerError::NotificationError(NotificationError::EmptyConfiguration).describe()
    );

    assert_eq!("subcommand is not present at runtime", UdsHandlerError::NoSubcommand.describe());
    assert_eq!("failed to parse", UdsHandlerError::ParseError(parse()).describe());
    assert_eq!(
        "failed to handle socket method",
        UdsHandlerError::SocketError("closed".to_string()).describe()
    );
    assert_eq!(
        "failed to decode message",
        UdsHandlerError::DecodeFailed(DecodeError::Utf8).describe()
    );
}

#[test]
fn channels_are_tried_only_where_they_are_configured() {
    let banner = notify_desktop(Alert::Work);
    assert_eq!("Work time done!", banner.summary);
    assert_eq!("Work time finished.\nNow take a rest!", banner.body);
    assert_eq!("pomodoro", banner.appname);
    assert_eq!(5000, banner.timeout_millis);
    assert_eq!("Break time done!", notify_desktop(Alert::Break).summary);

    let full = Configuration::new(
        Some("tok".to_string()),
        Some("C\"1".to_string()),
        Some("https://discord.example/hook".to_string()),
        None,
        None,
    );
    let post = notify_slack(Alert::Work, &full).unwrap();
    assert_eq!("https://slack.com/api/chat.postMessage", post.url);
    assert_eq!(Some("Bearer tok".to_string()), post.authorization);
    assert_eq!(r#"{"channel":"C\"1","text":"work done. Take a rest!"}"#, post.body);
    let expected: serde_json::Value = serde_json::from_str(&post.body).unwrap();
    assert_eq!("C\"1", expected["channel"]);
    assert_eq!("work done. Take a rest!", expected["text"]);

    let post = notify_discord(Alert::Break, &full).unwrap();
    assert_eq!("https://discord.example/hook", post.url);
    assert_eq!(None, post.authorization);
    assert_eq!(r#"{"content":"break done. Get back to work"}"#, post.body);

    let no_channel = Configuration::new(Some("tok".to_string()), None, None, None, None);
    assert!(matches!(
        notify_slack(Alert::Work, &no_channel),
        Err(NotificationError::EmptyConfiguration)
    ));
    let no_token = Configuration::new(None, Some("c".to_string()), None, None, None);
    assert!(matches!(
        notify_slack(Alert::Work, &no_token),
        Err(NotificationError::EmptyConfiguration)
    ));
    assert!(matches!(
        notify_slack(Alert::Break, &Configuration::default()),
        Err(NotificationError::EmptyConfiguration)
    ));
    assert!(matches!(
        notify_discord(Alert::Work, &no_token),
        Err(NotificationError::EmptyConfiguration)
    ));
}
