//! The controlling process: which request a command becomes, and how the
//! answer is read.

use vstd::prelude::*;
use crate::command::action::ActionType;
use crate::command::util::{
    bad_arg_text, first_malformed, given_number, malformed, parse_arg, parse_work_and_break_time,
    parsed_u16, text_of,
};
use crate::error::UdsHandlerError;
use crate::ipc::{read_response, MessageRequest, MessageResponse};
use crate::text::texts;

verus! {

/// The arguments of a command as they were entered.
#[derive(Clone, Copy, Debug)]
pub struct RequestArgs<'a> {
    /// The minutes of work, as written.
    pub work: Option<&'a str>,
    /// The minutes of break, as written.
    pub rest: Option<&'a str>,
    /// The identifier of the notification to delete, as written.
    pub id: Option<&'a str>,
    /// Whether the list is to show the percentage.
    pub percentage: bool,
    /// Whether the history is to be cleared.
    pub clear: bool,
}

/// The request that a command becomes, if the control channel carries it.
pub open spec fn request_of(action: ActionType, args: RequestArgs) -> Option<MessageRequest> {
    match action {
        ActionType::Create => Some(
            MessageRequest::Create {
                work: given_number(text_of(args.work)),
                rest: given_number(text_of(args.rest)),
            },
        ),
        ActionType::Queue => Some(
            MessageRequest::Queue {
                work: given_number(text_of(args.work)),
                rest: given_number(text_of(args.rest)),
            },
        ),
        ActionType::Delete => match args.id {
            Some(id) => match parsed_u16(id@) {
                Some(id) => Some(MessageRequest::Delete { id, all: false }),
                None => None,
            },
            None => Some(MessageRequest::Delete { id: 0, all: true }),
        },
        ActionType::List => Some(MessageRequest::List { show_percentage: args.percentage }),
        ActionType::Test => Some(MessageRequest::Test),
        ActionType::History => Some(MessageRequest::History { should_clear: args.clear }),
        ActionType::Exit => None,
        ActionType::Clear => None,
    }
}

/// The argument for which a command is refused: the first duration of a
/// creation, or the identifier of a deletion, that is given and is no number
/// below 65536.
pub open spec fn refused_argument(action: ActionType, args: RequestArgs) -> Option<Seq<char>> {
    match action {
        ActionType::Create => first_malformed(text_of(args.work), text_of(args.rest)),
        ActionType::Queue => first_malformed(text_of(args.work), text_of(args.rest)),
        ActionType::Delete => if malformed(text_of(args.id)) {
            text_of(args.id)
        } else {
            None
        },
        _ => None,
    }
}

/// The request that asks the scheduler for what the command asks.
///
/// A creation carries the minutes given on the command line and leaves the
/// rest to the scheduler. A deletion carries the identifier given, or asks
/// for all where none is given. A duration or an identifier that is no
/// number below 65536 is refused with the error that quotes it. Leaving and
/// clearing the screen are no business of the scheduler: they become no
/// request.
pub fn request_for(action: ActionType, args: &RequestArgs) -> (r: Result<
    Option<MessageRequest>,
    UdsHandlerError,
>)
    ensures
        match refused_argument(action, *args) {
            Some(value) => r matches Err(UdsHandlerError::ParseError(e)) && e.message() == Some(
                bad_arg_text(value),
            ),
            None => r == Ok::<Option<MessageRequest>, UdsHandlerError>(request_of(action, *args)),
        },
{
    match action {
        ActionType::Create => {
            let (work, rest) = match parse_work_and_break_time(args.work, args.rest, None) {
                Ok(pair) => pair,
                Err(e) => {
                    return Err(UdsHandlerError::ParseError(e));
                },
            };
            Ok(Some(MessageRequest::Create { work, rest }))
        },
        ActionType::Queue => {
            let (work, rest) = match parse_work_and_break_time(args.work, args.rest, None) {
                Ok(pair) => pair,
                Err(e) => {
                    return Err(UdsHandlerError::ParseError(e));
                },
            };
            Ok(Some(MessageRequest::Queue { work, rest }))
        },
        ActionType::Delete => match args.id {
            Some(_) => match parse_arg(args.id, "id") {
                Ok(id) => Ok(Some(MessageRequest::Delete { id, all: false })),
                Err(e) => Err(UdsHandlerError::ParseError(e)),
            },
            None => Ok(Some(MessageRequest::Delete { id: 0, all: true })),
        },
        ActionType::List => Ok(Some(MessageRequest::List { show_percentage: args.percentage })),
        ActionType::Test => Ok(Some(MessageRequest::Test)),
        ActionType::History => Ok(Some(MessageRequest::History { should_clear: args.clear })),
        ActionType::Exit => Ok(None),
        ActionType::Clear => Ok(None),
    }
}

/// Reads the answer of the scheduler from the bytes of one message: the
/// report lines to show, or the failure to read them.
pub fn decode_message(payload: &[u8]) -> (r: Result<MessageResponse, UdsHandlerError>)
    ensures
        match read_response(payload@) {
            Ok(lines) => r is Ok && texts(r->Ok_0.lines()) == lines,
            Err(e) => r matches Err(UdsHandlerError::DecodeFailed(reason)) && reason == e,
        },
{
    match MessageResponse::decode(payload) {
        Ok(response) => Ok(response),
        Err(e) => Err(UdsHandlerError::DecodeFailed(e)),
    }
}

} // verus!
