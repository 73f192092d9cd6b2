//! The decisions of the two sides of the control channel: who becomes the
//! scheduler, and what the scheduler does with a datagram.

use vstd::prelude::*;
use crate::ipc::framing::{datagram_views, datagrams_of, split_into_datagrams};
use crate::ipc::internal::Message;
use crate::ipc::{input_line, read_uds, uds_bytes, InputSource, UdsMessage, UdsType, UserInput};
use crate::wire::DecodeError;

verus! {

/// How the liveness check of a starting process ended.
#[derive(Clone, Copy, Debug, PartialEq, Eq, Structural)]
pub enum ProbeOutcome {
    /// No answer came within the time allowed.
    TimedOut,
    /// Receiving failed, or what came could not be read.
    Failed,
    /// This message came back.
    Answered(Message),
}

/// How a liveness check ended, given the bytes of the message that came
/// back: the handshake message they hold in the envelope of all messages.
/// Bytes that cannot be read, and bytes that hold a request, are a failure.
pub fn answered(payload: &[u8]) -> (r: ProbeOutcome)
    ensures
        r == match read_uds(payload@) {
            Ok((UdsMessage::Internal(message), _)) => ProbeOutcome::Answered(message),
            _ => ProbeOutcome::Failed,
        },
{
    match UdsMessage::decode(payload) {
        Ok(UdsMessage::Internal(message)) => ProbeOutcome::Answered(message),
        _ => ProbeOutcome::Failed,
    }
}

/// Whether a scheduler is listening already: only the answer `Pong` says so.
pub fn address_in_use(outcome: ProbeOutcome) -> (r: bool)
    ensures
        r == (outcome == ProbeOutcome::Answered(Message::Pong)),
{
    match outcome {
        ProbeOutcome::Answered(Message::Pong) => true,
        _ => false,
    }
}

/// The role a starting process takes after its liveness check: it only asks
/// where a scheduler is known to listen, and becomes the scheduler where none
/// answered or the check itself could not be made (`None`).
pub fn role_after_probe(in_use: Option<bool>) -> (r: UdsType)
    ensures
        r == if in_use == Some(true) {
            UdsType::Client
        } else {
            UdsType::Server
        },
{
    match in_use {
        Some(true) => UdsType::Client,
        _ => UdsType::Server,
    }
}

/// From where a datagram came.
#[derive(Clone, Copy, Debug, PartialEq, Eq, Structural)]
pub enum Sender {
    /// From the address of the controlling process.
    Client,
    /// From another named address.
    Other,
    /// From a socket without an address.
    Unnamed,
}

/// What the scheduler does with a datagram.
#[derive(Debug)]
pub enum ServerAction {
    /// Nothing: the datagram is none of its business.
    Ignore,
    /// Nothing but a note of the error: the datagram cannot be read.
    Discard(DecodeError),
    /// Hand the command line to the session.
    Forward(UserInput),
    /// Send these datagrams back to the sender.
    Reply(Vec<Vec<u8>>),
}

/// Decides what the scheduler does with a datagram.
///
/// A datagram from a named address other than that of the controlling
/// process is ignored. One that cannot be read is discarded with the reason.
/// A request becomes the command line that asks for the same. A `Ping` is
/// answered with the datagrams of a `Pong` in the envelope of all messages;
/// a `Pong` is ignored.
pub fn react(sender: Sender, datagram: &[u8]) -> (r: ServerAction)
    ensures
        sender == Sender::Other ==> r is Ignore,
        sender != Sender::Other ==> match read_uds(datagram@) {
            Err(e) => r matches ServerAction::Discard(reason) && reason == e,
            Ok((UdsMessage::Public(request), _)) => {
                &&& r matches ServerAction::Forward(input)
                &&& input.input@ == input_line(request)
                &&& input.source == InputSource::UnixDomainSocket
            },
            Ok((UdsMessage::Internal(Message::Ping), _)) => {
                &&& r matches ServerAction::Reply(datagrams)
                &&& datagram_views(datagrams@) == datagrams_of(
                    uds_bytes(UdsMessage::Internal(Message::Pong)),
                )
            },
            Ok((UdsMessage::Internal(Message::Pong), _)) => r is Ignore,
        },
{
    match sender {
        Sender::Other => {
            return ServerAction::Ignore;
        },
        _ => {},
    }
    match UdsMessage::decode(datagram) {
        Err(e) => ServerAction::Discard(e),
        Ok(UdsMessage::Public(request)) => ServerAction::Forward(UserInput::from_request(request)),
        Ok(UdsMessage::Internal(Message::Ping)) => match UdsMessage::Internal(
            Message::Pong,
        ).encode() {
            Ok(bytes) => ServerAction::Reply(split_into_datagrams(bytes.as_slice())),
            Err(_) => ServerAction::Ignore,
        },
        Ok(UdsMessage::Internal(Message::Pong)) => ServerAction::Ignore,
    }
}

} // verus!
