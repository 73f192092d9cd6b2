//! The messages that the two sides exchange among themselves: the liveness
//! check of the singleton handshake.

use vstd::prelude::*;
use bincode::error::EncodeError;
use crate::wire::{put_u32, read_u32, take_u32, varint, DecodeError};

verus! {

/// A liveness check or its answer.
#[derive(Clone, Copy, Debug, PartialEq, Eq, Structural)]
pub enum Message {
    Ping,
    Pong,
}

/// The bytes of an internal message: its tag.
pub open spec fn message_bytes(m: Message) -> Seq<u8> {
    match m {
        Message::Ping => varint(0),
        Message::Pong => varint(1),
    }
}

/// Reads an internal message: the message and how many bytes it took.
pub open spec fn read_message(bytes: Seq<u8>) -> Result<(Message, usize), DecodeError> {
    match read_u32(bytes) {
        Err(e) => Err(e),
        Ok((tag, n)) => if tag == 0 {
            Ok((Message::Ping, n))
        } else if tag == 1 {
            Ok((Message::Pong, n))
        } else {
            Err(DecodeError::UnexpectedVariant(tag))
        },
    }
}

/// Appends an internal message.
pub fn put_message(out: &mut Vec<u8>, m: Message) -> (r: Result<(), EncodeError>)
    ensures
        r is Ok,
        final(out)@ == old(out)@ + message_bytes(m),
{
    match m {
        Message::Ping => put_u32(out, 0),
        Message::Pong => put_u32(out, 1),
    }
}

/// Reads an internal message from the start of `bytes`.
pub fn take_message(bytes: &[u8]) -> (r: Result<(Message, usize), DecodeError>)
    ensures
        r == read_message(bytes@),
{
    match take_u32(bytes) {
        Err(e) => Err(e),
        Ok((tag, n)) => if tag == 0 {
            Ok((Message::Ping, n))
        } else if tag == 1 {
            Ok((Message::Pong, n))
        } else {
            Err(DecodeError::UnexpectedVariant(tag))
        },
    }
}

impl Message {
    /// The bytes of the message.
    pub fn encode(self) -> (r: Result<Vec<u8>, EncodeError>)
        ensures
            r is Ok,
            r->Ok_0@ == message_bytes(self),
    {
        let mut out: Vec<u8> = Vec::new();
        put_message(&mut out, self)?;
        assert(out@ =~= message_bytes(self));
        Ok(out)
    }

    /// The message that `byte` begins with; what follows it is ignored.
    pub fn decode(byte: &[u8]) -> (r: Result<Self, DecodeError>)
        ensures
            match read_message(byte@) {
                Ok((m, _)) => r == Ok::<Self, DecodeError>(m),
                Err(e) => r == Err::<Self, DecodeError>(e),
            },
    {
        match take_message(byte) {
            Ok((m, _)) => Ok(m),
            Err(e) => Err(e),
        }
    }
}

} // verus!
