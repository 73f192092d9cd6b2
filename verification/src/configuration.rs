//! What the user configured: the delivery channels and the default durations.

use vstd::prelude::*;
use vstd::string::*;

verus! {

/// The address to which the first chat webhook sends its messages.
pub const SLACK_API_URL: &'static str = "https://slack.com/api/chat.postMessage";

/// Why a configuration could not be loaded, or what it lacks.
#[derive(Debug)]
pub enum ConfigurationError {
    /// No file stands at the given path.
    FileNotFound,
    /// The file could not be opened; the payload is the system's own message.
    FileOpenError(String),
    /// The file does not hold a configuration; the payload is the parser's own message.
    JsonError(String),
    /// The first chat webhook is not configured.
    SlackConfigNotFound,
    /// The second chat webhook is not configured.
    DiscordConfigNotFound,
    /// The working directory could not be found; the payload is the system's own message.
    LoadFail(String),
}

impl ConfigurationError {
    /// The text the error is shown as.
    pub open spec fn text(&self) -> Seq<char> {
        match self {
            ConfigurationError::FileNotFound => "can not find configuration file "@,
            ConfigurationError::FileOpenError(_) => "failed to open the file"@,
            ConfigurationError::JsonError(_) => "failed to deserialize json"@,
            ConfigurationError::SlackConfigNotFound => "can not find slack config in json"@,
            ConfigurationError::DiscordConfigNotFound => "can not find discord config in json"@,
            ConfigurationError::LoadFail(cause) => "failed to load: "@ + cause@,
        }
    }

    /// The text of the underlying cause, where the error has one.
    pub open spec fn cause(&self) -> Option<Seq<char>> {
        match self {
            ConfigurationError::FileOpenError(cause) => Some(cause@),
            ConfigurationError::JsonError(cause) => Some(cause@),
            ConfigurationError::LoadFail(cause) => Some(cause@),
            _ => None,
        }
    }

    /// Writes the error as it is shown to the user.
    pub fn describe(&self) -> (r: String)
        ensures
            r@ == self.text(),
    {
        match self {
            ConfigurationError::FileNotFound => String::from_str("can not find configuration file "),
            ConfigurationError::FileOpenError(_) => String::from_str("failed to open the file"),
            ConfigurationError::JsonError(_) => String::from_str("failed to deserialize json"),
            ConfigurationError::SlackConfigNotFound => {
                String::from_str("can not find slack config in json")
            },
            ConfigurationError::DiscordConfigNotFound => {
                String::from_str("can not find discord config in json")
            },
            ConfigurationError::LoadFail(cause) => {
                String::from_str("failed to load: ").concat(cause.as_str())
            },
        }
    }

    /// Writes the underlying cause, where the error has one.
    pub fn source_text(&self) -> (r: Option<String>)
        ensures
            r is Some <==> self.cause() is Some,
            r is Some ==> r->0@ == self.cause()->0,
    {
        match self {
            ConfigurationError::FileOpenError(cause) => Some(cause.clone()),
            ConfigurationError::JsonError(cause) => Some(cause.clone()),
            ConfigurationError::LoadFail(cause) => Some(cause.clone()),
            _ => None,
        }
    }
}

#[derive(Debug, Clone)]
struct SlackConfiguration {
    token: Option<String>,
    channel: Option<String>,
}

#[derive(Debug, Clone)]
struct DiscordConfiguration {
    webhook_url: Option<String>,
}

/// The settings of one session. Every part may be missing.
#[derive(Debug, Clone)]
pub struct Configuration {
    slack_configuration: Option<SlackConfiguration>,
    discord_configuration: Option<DiscordConfiguration>,
    work_time_default_value: Option<u16>,
    break_time_default_value: Option<u16>,
}

impl Configuration {
    /// The token of the first chat webhook, if configured.
    pub closed spec fn slack_token(&self) -> Option<String> {
        match self.slack_configuration {
            Some(config) => config.token,
            None => None,
        }
    }

    /// The channel of the first chat webhook, if configured.
    pub closed spec fn slack_channel(&self) -> Option<String> {
        match self.slack_configuration {
            Some(config) => config.channel,
            None => None,
        }
    }

    /// The address of the second chat webhook, if configured.
    pub closed spec fn discord_webhook_url(&self) -> Option<String> {
        match self.discord_configuration {
            Some(config) => config.webhook_url,
            None => None,
        }
    }

    /// The configured length of the work phase in minutes, if any.
    pub closed spec fn work_time(&self) -> Option<u16> {
        self.work_time_default_value
    }

    /// The configured length of the break phase in minutes, if any.
    pub closed spec fn break_time(&self) -> Option<u16> {
        self.break_time_default_value
    }

    /// A configuration with the given parts.
    pub fn new(
        slack_token: Option<String>,
        slack_channel: Option<String>,
        discord_webhook_url: Option<String>,
        work_time_default_value: Option<u16>,
        break_time_default_value: Option<u16>,
    ) -> (r: Self)
        ensures
            r.slack_token() == slack_token,
            r.slack_channel() == slack_channel,
            r.discord_webhook_url() == discord_webhook_url,
            r.work_time() == work_time_default_value,
            r.break_time() == break_time_default_value,
    {
        Configuration {
            slack_configuration: Some(SlackConfiguration { token: slack_token, channel: slack_channel }),
            discord_configuration: Some(DiscordConfiguration { webhook_url: discord_webhook_url }),
            work_time_default_value,
            break_time_default_value,
        }
    }

    /// The token of the first chat webhook, if configured.
    pub fn get_slack_token(&self) -> (r: &Option<String>)
        ensures
            *r == self.slack_token(),
    {
        match &self.slack_configuration {
            Some(config) => &config.token,
            None => &None,
        }
    }

    /// The channel of the first chat webhook, if configured.
    pub fn get_slack_channel(&self) -> (r: &Option<String>)
        ensures
            *r == self.slack_channel(),
    {
        match &self.slack_configuration {
            Some(config) => &config.channel,
            None => &None,
        }
    }

    /// The address of the second chat webhook, if configured.
    pub fn get_discord_webhook_url(&self) -> (r: &Option<String>)
        ensures
            *r == self.discord_webhook_url(),
    {
        match &self.discord_configuration {
            Some(config) => &config.webhook_url,
            None => &None,
        }
    }

    /// The configured length of the work phase in minutes, if any.
    pub fn get_work_time(&self) -> (r: Option<u16>)
        ensures
            r == self.work_time(),
    {
        self.work_time_default_value
    }

    /// The configured length of the break phase in minutes, if any.
    pub fn get_break_time(&self) -> (r: Option<u16>)
        ensures
            r == self.break_time(),
    {
        self.break_time_default_value
    }
}

impl Default for Configuration {
    /// The configuration in which every part is missing.
    fn default() -> (r: Self)
        ensures
            r.slack_token() is None,
            r.slack_channel() is None,
            r.discord_webhook_url() is None,
            r.work_time() is None,
            r.break_time() is None,
    {
        Configuration {
            slack_configuration: None,
            discord_configuration: None,
            work_time_default_value: None,
            break_time_default_value: None,
        }
    }
}

/// Settles what a session runs with once loading has been tried: without a
/// path, the empty configuration; with a configuration that loaded, that one;
/// after a failure, the empty configuration together with the failure.
pub fn resolve_loaded(outcome: Option<Result<Configuration, ConfigurationError>>) -> (r: (
    Configuration,
    Option<ConfigurationError>,
))
    ensures
        match outcome {
            None => r.1 is None && is_empty(r.0),
            Some(Ok(configuration)) => r.1 is None && r.0 == configuration,
            Some(Err(e)) => r.1 == Some(e) && is_empty(r.0),
        },
{
    match outcome {
        None => (Configuration::default(), None),
        Some(Ok(configuration)) => (configuration, None),
        Some(Err(e)) => (Configuration::default(), Some(e)),
    }
}

/// Every part of the configuration is missing.
pub open spec fn is_empty(configuration: Configuration) -> bool {
    &&& configuration.slack_token() is None
    &&& configuration.slack_channel() is None
    &&& configuration.discord_webhook_url() is None
    &&& configuration.work_time() is None
    &&& configuration.break_time() is None
}

} // verus!
