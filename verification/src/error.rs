//! The errors that the library reports, each with the text it is shown as.

use vstd::prelude::*;
use vstd::string::*;
use bincode::error::EncodeError;
use crate::wire::DecodeError;

verus! {

/// An argument that could not be read or understood.
#[derive(Debug)]
pub struct ParseError {
    message: Option<String>,
}

impl ParseError {
    /// The explanation carried by the error, if any.
    pub closed spec fn message(&self) -> Option<Seq<char>> {
        match self.message {
            Some(m) => Some(m@),
            None => None,
        }
    }

    /// The text the error is shown as.
    pub open spec fn text(&self) -> Seq<char> {
        match self.message() {
            Some(m) => "error occurred while parsing: "@ + m,
            None => "error occurred while parsing"@,
        }
    }

    /// An error that carries `message` as its explanation.
    pub fn new(message: String) -> (r: Self)
        ensures
            r.message() == Some(message@),
    {
        ParseError { message: Some(message) }
    }

    /// Writes the error as it is shown to the user.
    pub fn describe(&self) -> (r: String)
        ensures
            r@ == self.text(),
    {
        match &self.message {
            Some(m) => String::from_str("error occurred while parsing: ").concat(m.as_str()),
            None => String::from_str("error occurred while parsing"),
        }
    }
}

/// Why a notification could not be created, retired or delivered.
#[derive(Debug)]
pub enum NotificationError {
    /// The desktop banner failed; the payload is the backend's own message.
    Desktop(String),
    /// The first chat webhook failed; the payload is the transport's own message.
    Slack(String),
    /// The second chat webhook failed; the payload is the transport's own message.
    Discord(String),
    /// The channel is not configured.
    EmptyConfiguration,
    /// The arguments of a creation could not be understood.
    NewNotification(ParseError),
    /// A notification could not be retired; the payload says why.
    DeletionFail(String),
    /// Both durations of a new notification are zero.
    EmptyTimeValues,
}

impl NotificationError {
    /// The text the error is shown as.
    pub open spec fn text(&self) -> Seq<char> {
        match self {
            NotificationError::Desktop(_) => "NotificationError::Desktop"@,
            NotificationError::Slack(_) => "NotificationError::Slack"@,
            NotificationError::Discord(_) => "NotificationError::Discord"@,
            NotificationError::EmptyConfiguration => "configuration is empty"@,
            NotificationError::NewNotification(e) => "faield to get new notification: "@ + e.text(),
            NotificationError::DeletionFail(message) => message@,
            NotificationError::EmptyTimeValues => "work_time and break_time both can not be zero both"@,
        }
    }

    /// The text of the underlying cause, where the error has one.
    pub open spec fn cause(&self) -> Option<Seq<char>> {
        match self {
            NotificationError::Desktop(cause) => Some(cause@),
            NotificationError::Slack(cause) => Some(cause@),
            NotificationError::Discord(cause) => Some(cause@),
            NotificationError::NewNotification(e) => Some(e.text()),
            _ => None,
        }
    }

    /// Writes the error as it is shown to the user.
    pub fn describe(&self) -> (r: String)
        ensures
            r@ == self.text(),
    {
        match self {
            NotificationError::Desktop(_) => String::from_str("NotificationError::Desktop"),
            NotificationError::Slack(_) => String::from_str("NotificationError::Slack"),
            NotificationError::Discord(_) => String::from_str("NotificationError::Discord"),
            NotificationError::EmptyConfiguration => String::from_str("configuration is empty"),
            NotificationError::NewNotification(e) => {
                String::from_str("faield to get new notification: ").concat(e.describe().as_str())
            },
            NotificationError::DeletionFail(message) => message.clone(),
            NotificationError::EmptyTimeValues => {
                String::from_str("work_time and break_time both can not be zero both")
            },
        }
    }

    /// Writes the underlying cause, where the error has one.
    pub fn source_text(&self) -> (r: Option<String>)
        ensures
            r is Some <==> self.cause() is Some,
            r is Some ==> r->0@ == self.cause()->0,
    {
        match self {
            NotificationError::Desktop(cause) => Some(cause.clone()),
            NotificationError::Slack(cause) => Some(cause.clone()),
            NotificationError::Discord(cause) => Some(cause.clone()),
            NotificationError::NewNotification(e) => Some(e.describe()),
            _ => None,
        }
    }
}

/// Why a command of the session could not be handled.
#[derive(Debug)]
pub enum UserInputHandlerError {
    /// The command line names no command.
    NoSubcommand,
    /// An argument could not be understood.
    ParseError(ParseError),
    /// The command line does not fit the commands; the payload is the
    /// parser's own message.
    CommandMatchError(String),
    /// The notification could not be created or retired.
    NotificationError(NotificationError),
}

impl UserInputHandlerError {
    /// The text the error is shown as.
    pub open spec fn text(&self) -> Seq<char> {
        match self {
            UserInputHandlerError::NoSubcommand => "subcommand is not present at runtime"@,
            UserInputHandlerError::ParseError(e) => "failed to parse: "@ + e.text(),
            UserInputHandlerError::CommandMatchError(e) => "failed to get matches: "@ + e@,
            UserInputHandlerError::NotificationError(e) => e.text(),
        }
    }

    /// Writes the error as it is shown to the user.
    pub fn describe(&self) -> (r: String)
        ensures
            r@ == self.text(),
    {
        match self {
            UserInputHandlerError::NoSubcommand => {
                String::from_str("subcommand is not present at runtime")
            },
            UserInputHandlerError::ParseError(e) => {
                String::from_str("failed to parse: ").concat(e.describe().as_str())
            },
            UserInputHandlerError::CommandMatchError(e) => {
                String::from_str("failed to get matches: ").concat(e.as_str())
            },
            UserInputHandlerError::NotificationError(e) => e.describe(),
        }
    }
}

/// Why a request of a controlling process failed.
#[derive(Debug)]
pub enum UdsHandlerError {
    /// The command line names no command.
    NoSubcommand,
    /// An argument could not be understood.
    ParseError(ParseError),
    /// The socket refused; the payload is the system's own message.
    SocketError(String),
    /// The request could not be written as bytes.
    EncodeFailed(EncodeError),
    /// The answer could not be read.
    DecodeFailed(DecodeError),
}

impl UdsHandlerError {
    /// The text the error is shown as.
    pub open spec fn text(&self) -> Seq<char> {
        match self {
            UdsHandlerError::NoSubcommand => "subcommand is not present at runtime"@,
            UdsHandlerError::ParseError(_) => "failed to parse"@,
            UdsHandlerError::SocketError(_) => "failed to handle socket method"@,
            UdsHandlerError::EncodeFailed(_) => "failed to encode message"@,
            UdsHandlerError::DecodeFailed(_) => "failed to decode message"@,
        }
    }

    /// Writes the error as it is shown to the user.
    pub fn describe(&self) -> (r: String)
        ensures
            r@ == self.text(),
    {
        match self {
            UdsHandlerError::NoSubcommand => String::from_str("subcommand is not present at runtime"),
            UdsHandlerError::ParseError(_) => String::from_str("failed to parse"),
            UdsHandlerError::SocketError(_) => String::from_str("failed to handle socket method"),
            UdsHandlerError::EncodeFailed(_) => String::from_str("failed to encode message"),
            UdsHandlerError::DecodeFailed(_) => String::from_str("failed to decode message"),
        }
    }
}

} // verus!
