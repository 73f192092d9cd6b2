//! What each delivery channel is asked to send when a phase ends.
//!
//! An alert goes to the desktop and to two chat channels. The channels are
//! tried independently of one another; what each answered is collected into a
//! report. Sending is left to the session: here it is decided whether a
//! channel can be tried at all, and what it is sent.

use vstd::prelude::*;
use vstd::string::*;
use crate::configuration::{Configuration, SLACK_API_URL};
use crate::error::NotificationError;
use crate::scheduler::Alert;

verus! {

/// The name under which desktop banners are shown.
pub const APP_NAME: &'static str = "pomodoro";

/// Milliseconds after which a desktop banner disappears.
pub const DESKTOP_TIMEOUT_MILLIS: u32 = 5000;

/// The text of the JSON object with the given keys and text values.
pub uninterp spec fn json_object_text(fields: Seq<(Seq<char>, Seq<char>)>) -> Seq<char>;

/// The keys and values of `fields` as characters.
pub open spec fn field_texts(fields: Seq<(String, String)>) -> Seq<(Seq<char>, Seq<char>)> {
    Seq::new(fields.len(), |i: int| (fields[i].0@, fields[i].1@))
}

/// Builds a `serde_json::Value::Object` whose values are the given texts and
/// writes it with `to_string`. The text depends on the fields alone.
#[verifier::external_body]
fn json_object(fields: &Vec<(String, String)>) -> (r: String)
    ensures
        r@ == json_object_text(field_texts(fields@)),
{
    let object: serde_json::Map<String, serde_json::Value> = fields.iter().map(
        |field| (field.0.clone(), serde_json::Value::String(field.1.clone())),
    ).collect();
    serde_json::Value::Object(object).to_string()
}

/// What the desktop is asked to show.
#[derive(Debug)]
pub struct DesktopBanner {
    pub summary: String,
    pub body: String,
    pub appname: String,
    pub timeout_millis: u32,
}

/// What a chat channel is sent: a JSON body, posted to an address, with an
/// authorization header where the channel asks for one.
#[derive(Debug)]
pub struct ChatPost {
    pub url: String,
    pub authorization: Option<String>,
    pub body: String,
}

/// The body of the post to the first chat channel.
pub open spec fn slack_body_text(channel: Seq<char>, alert: Alert) -> Seq<char> {
    json_object_text(seq![("channel"@, channel), ("text"@, alert.chat_text())])
}

/// The body of the post to the second chat channel.
pub open spec fn discord_body_text(alert: Alert) -> Seq<char> {
    json_object_text(seq![("content"@, alert.chat_text())])
}

/// The banner that announces the end of a phase on the desktop.
pub fn notify_desktop(alert: Alert) -> (r: DesktopBanner)
    ensures
        r.summary@ == alert.summary_text(),
        r.body@ == alert.body_text(),
        r.appname@ == APP_NAME@,
        r.timeout_millis == DESKTOP_TIMEOUT_MILLIS,
{
    DesktopBanner {
        summary: String::from_str(alert.summary()),
        body: String::from_str(alert.body()),
        appname: String::from_str(APP_NAME),
        timeout_millis: DESKTOP_TIMEOUT_MILLIS,
    }
}

/// The post that announces the end of a phase on the first chat channel, or
/// the refusal where its token or its channel is not configured.
pub fn notify_slack(alert: Alert, configuration: &Configuration) -> (r: Result<
    ChatPost,
    NotificationError,
>)
    ensures
        match (configuration.slack_token(), configuration.slack_channel()) {
            (Some(token), Some(channel)) => {
                &&& r matches Ok(post)
                &&& post.url@ == SLACK_API_URL@
                &&& post.authorization matches Some(header)
                &&& header@ == "Bearer "@ + token@
                &&& post.body@ == slack_body_text(channel@, alert)
            },
            _ => r matches Err(NotificationError::EmptyConfiguration),
        },
{
    match (configuration.get_slack_token(), configuration.get_slack_channel()) {
        (Some(token), Some(channel)) => {
            let mut fields: Vec<(String, String)> = Vec::new();
            fields.push((String::from_str("channel"), channel.clone()));
            fields.push((String::from_str("text"), String::from_str(alert.chat_message())));
            assert(field_texts(fields@) =~= seq![
                ("channel"@, channel@),
                ("text"@, alert.chat_text()),
            ]);
            Ok(
                ChatPost {
                    url: String::from_str(SLACK_API_URL),
                    authorization: Some(String::from_str("Bearer ").concat(token.as_str())),
                    body: json_object(&fields),
                },
            )
        },
        _ => Err(NotificationError::EmptyConfiguration),
    }
}

/// The post that announces the end of a phase on the second chat channel,
/// or the refusal where its address is not configured.
pub fn notify_discord(alert: Alert, configuration: &Configuration) -> (r: Result<
    ChatPost,
    NotificationError,
>)
    ensures
        match configuration.discord_webhook_url() {
            Some(url) => {
                &&& r matches Ok(post)
                &&& post.url@ == url@
                &&& post.authorization is None
                &&& post.body@ == discord_body_text(alert)
            },
            None => r matches Err(NotificationError::EmptyConfiguration),
        },
{
    match configuration.get_discord_webhook_url() {
        Some(url) => {
            let mut fields: Vec<(String, String)> = Vec::new();
            fields.push((String::from_str("content"), String::from_str(alert.chat_message())));
            assert(field_texts(fields@) =~= seq![("content"@, alert.chat_text())]);
            Ok(ChatPost { url: url.clone(), authorization: None, body: json_object(&fields) })
        },
        None => Err(NotificationError::EmptyConfiguration),
    }
}

} // verus!
