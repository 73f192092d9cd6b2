use pomodoro::configuration::{resolve_loaded, Configuration, ConfigurationError, SLACK_API_URL};

#[test]
fn a_configuration_hands_out_its_parts() {
    let config = Configuration::new(
        Some("your-bot-token-string".to_string()),
        Some("your-slack-channel-id".to_string()),
        Some("your-webhook-url".to_string()),
        Some(30),
        Some(10),
    );
    assert_eq!(&Some("your-bot-token-string".to_string()), config.get_slack_token());
    assert_eq!(&Some("your-slack-channel-id".to_string()), config.get_slack_channel());
    assert_eq!(&Some("your-webhook-url".to_string()), config.get_discord_webhook_url());
    assert_eq!(Some(30), config.get_work_time());
    assert_eq!(Some(10), config.get_break_time());

    let partly = Configuration::new(None, Some("c".to_string()), None, None, Some(0));
    assert_eq!(&None, partly.get_slack_token());
    assert_eq!(&Some("c".to_string()), partly.get_slack_channel());
    assert_eq!(&None, partly.get_discord_webhook_url());
    assert_eq!(None, partly.get_work_time());
    assert_eq!(Some(0), partly.get_break_time());
}

fn assert_empty(config: &Configuration) {
    assert!(config.get_slack_token().is_none());
    assert!(config.get_slack_channel().is_none());
    assert!(config.get_discord_webhook_url().is_none());
    assert!(config.get_work_time().is_none());
    assert!(config.get_break_time().is_none());
}

#[test]
fn the_default_configuration_is_empty() {
    assert_empty(&Configuration::default());
}

#[test]
fn a_failed_load_falls_back_to_the_empty_configuration() {
    let (config, error) = resolve_loaded(None);
    assert_empty(&config);
    assert!(error.is_none());

    let (config, error) = resolve_loaded(Some(Err(ConfigurationError::FileNotFound)));
    assert_empty(&config);
    assert!(matches!(error, Some(ConfigurationError::FileNotFound)));

    let (config, error) =
        resolve_loaded(Some(Err(ConfigurationError::JsonError("expected value".to_string()))));
    assert_empty(&config);
    match error {
        Some(ConfigurationError::JsonError(cause)) => assert_eq!("expected value", cause),
        _ => panic!("the failure is expected to come back"),
    }

    let loaded = Configuration::new(None, None, None, Some(30), None);
    let (config, error) = resolve_loaded(Some(Ok(loaded)));
    assert_eq!(Some(30), config.get_work_time());
    assert!(error.is_none());
}

#[test]
fn configuration_errors_have_their_texts() {
    let table = [
        (ConfigurationError::FileNotFound, "can not find configuration file ", None),
        (
            ConfigurationError::FileOpenError("denied".to_string()),
            "failed to open the file",
            Some("denied"),
        ),
        (
            ConfigurationError::JsonError("eof".to_string()),
            "failed to deserialize json",
            Some("eof"),
        ),
        (ConfigurationError::SlackConfigNotFound, "can not find slack config in json", None),
        (ConfigurationError::DiscordConfigNotFound, "can not find discord config in json", None),
        (ConfigurationError::LoadFail("gone".to_string()), "failed to load: gone", Some("gone")),
    ];
    for (error, text, cause) in table {
        assert_eq!(text, error.describe());
        assert_eq!(cause.map(|c| c.to_string()), error.source_text());
    }
    assert_eq!("https://slack.com/api/chat.postMessage", SLACK_API_URL);
}
