//! The control protocol: the messages between a controlling process and the
//! scheduler, their bytes, and the decisions of the two sides.

pub mod framing;
pub mod internal;
pub mod server;

use vstd::prelude::*;
use vstd::slice::slice_subrange;
use vstd::string::*;
use vstd::utf8::{encode_utf8, encode_utf8_decode_utf8, encode_utf8_valid_utf8};
use bincode::error::EncodeError;
use crate::command::action::ActionType;
use crate::ipc::internal::{message_bytes, put_message, read_message, take_message, Message};
use crate::text::{decimal, decimal_string, texts};
use crate::wire::{
    bool_bytes, lemma_read_stays_inside, lemma_varint_len, lemma_varint_round_trip, option_bytes,
    put_bool, put_option, put_text, put_u16, put_u32, put_u64, read_bool, read_option, read_text,
    read_u16, read_u32, read_u64, take_bool, take_option, take_text, take_u16,
    take_u32, take_u64, text_bytes, varint, DecodeError,
};

verus! {

/// The file name of the address at which the scheduler listens.
pub const SOCKET_SERVER_ADDR: &'static str = "rust-cli-pomodoro-server.sock";

/// The file name of the address from which a controlling process asks.
pub const SOCKET_CLIENT_ADDR: &'static str = "rust-cli-pomodoro-client.sock";

/// Milliseconds that each half of the handshake waits.
pub const HANDSHAKE_TIMEOUT_MILLIS: u64 = 500;

/// The two roles on the control channel.
#[derive(Clone, Copy, Debug, PartialEq, Eq, Structural)]
pub enum UdsType {
    Server,
    Client,
}

/// What a controlling process asks of the scheduler.
#[derive(Clone, Copy, Debug, PartialEq, Eq, Structural)]
pub enum MessageRequest {
    Create { work: Option<u16>, rest: Option<u16> },
    Queue { work: Option<u16>, rest: Option<u16> },
    Delete { id: u16, all: bool },
    List { show_percentage: bool },
    Test,
    History { should_clear: bool },
}

/// Everything that travels to the scheduler: a request, or a message of the
/// handshake.
#[derive(Clone, Copy, Debug, PartialEq, Eq, Structural)]
pub enum UdsMessage {
    Public(MessageRequest),
    Internal(Message),
}

/// What the scheduler answers: the report lines of the command, in order.
#[derive(Debug)]
pub struct MessageResponse {
    body: Vec<String>,
}

/// Where a command line came from.
#[derive(Clone, Copy, Debug, PartialEq, Eq, Structural)]
pub enum InputSource {
    StandardInput,
    UnixDomainSocket,
}

/// One command line for the session to handle.
#[derive(Debug)]
pub struct UserInput {
    pub input: String,
    pub source: InputSource,
}

/// The file name of the address of a role, below the directory for
/// temporary files.
pub fn socket_file_name(role: UdsType) -> (r: &'static str)
    ensures
        r@ == match role {
            UdsType::Server => SOCKET_SERVER_ADDR@,
            UdsType::Client => SOCKET_CLIENT_ADDR@,
        },
{
    match role {
        UdsType::Server => SOCKET_SERVER_ADDR,
        UdsType::Client => SOCKET_CLIENT_ADDR,
    }
}

/// The tag that tells the kind of a request.
pub open spec fn tag_of(m: MessageRequest) -> u32 {
    match m {
        MessageRequest::Create { .. } => 0,
        MessageRequest::Queue { .. } => 1,
        MessageRequest::Delete { .. } => 2,
        MessageRequest::List { .. } => 3,
        MessageRequest::Test => 4,
        MessageRequest::History { .. } => 5,
    }
}

/// The bytes of the fields of a request, in their order.
pub open spec fn fields_bytes(m: MessageRequest) -> Seq<u8> {
    match m {
        MessageRequest::Create { work, rest } => option_bytes(work) + option_bytes(rest),
        MessageRequest::Queue { work, rest } => option_bytes(work) + option_bytes(rest),
        MessageRequest::Delete { id, all } => varint(id as nat) + bool_bytes(all),
        MessageRequest::List { show_percentage } => bool_bytes(show_percentage),
        MessageRequest::Test => Seq::<u8>::empty(),
        MessageRequest::History { should_clear } => bool_bytes(should_clear),
    }
}

/// The bytes of a request: its tag, then its fields in their order.
pub open spec fn request_bytes(m: MessageRequest) -> Seq<u8> {
    varint(tag_of(m) as nat) + fields_bytes(m)
}

/// What is left of `bytes` after the first `n`.
pub open spec fn after(bytes: Seq<u8>, n: int) -> Seq<u8> {
    bytes.subrange(n, bytes.len() as int)
}

/// Reads the two optional durations of a creation.
pub open spec fn read_durations(bytes: Seq<u8>) -> Result<
    (Option<u16>, Option<u16>, usize),
    DecodeError,
> {
    match read_option(bytes) {
        Err(e) => Err(e),
        Ok((work, n)) => match read_option(after(bytes, n as int)) {
            Err(e) => Err(e),
            Ok((rest, m)) => Ok((work, rest, (n + m) as usize)),
        },
    }
}

/// Reads the fields of the request with the given tag.
pub open spec fn read_fields(tag: u32, bytes: Seq<u8>) -> Result<
    (MessageRequest, usize),
    DecodeError,
> {
    if tag == 0 {
        match read_durations(bytes) {
            Err(e) => Err(e),
            Ok((work, rest, n)) => Ok((MessageRequest::Create { work, rest }, n)),
        }
    } else if tag == 1 {
        match read_durations(bytes) {
            Err(e) => Err(e),
            Ok((work, rest, n)) => Ok((MessageRequest::Queue { work, rest }, n)),
        }
    } else if tag == 2 {
        match read_u16(bytes) {
            Err(e) => Err(e),
            Ok((id, n)) => match read_bool(after(bytes, n as int)) {
                Err(e) => Err(e),
                Ok((all, m)) => Ok((MessageRequest::Delete { id, all }, (n + m) as usize)),
            },
        }
    } else if tag == 3 {
        match read_bool(bytes) {
            Err(e) => Err(e),
            Ok((show_percentage, n)) => Ok((MessageRequest::List { show_percentage }, n)),
        }
    } else if tag == 4 {
        Ok((MessageRequest::Test, 0usize))
    } else if tag == 5 {
        match read_bool(bytes) {
            Err(e) => Err(e),
            Ok((should_clear, n)) => Ok((MessageRequest::History { should_clear }, n)),
        }
    } else {
        Err(DecodeError::UnexpectedVariant(tag))
    }
}

/// Reads a request: the request and how many bytes it took.
pub open spec fn read_request(bytes: Seq<u8>) -> Result<(MessageRequest, usize), DecodeError> {
    match read_u32(bytes) {
        Err(e) => Err(e),
        Ok((tag, n)) => match read_fields(tag, after(bytes, n as int)) {
            Err(e) => Err(e),
            Ok((m, k)) => Ok((m, (n + k) as usize)),
        },
    }
}

/// The bytes of a message to the scheduler: its kind, then the message.
pub open spec fn uds_bytes(m: UdsMessage) -> Seq<u8> {
    match m {
        UdsMessage::Public(request) => varint(0) + request_bytes(request),
        UdsMessage::Internal(message) => varint(1) + message_bytes(message),
    }
}

/// Reads a message to the scheduler: the message and how many bytes it took.
pub open spec fn read_uds(bytes: Seq<u8>) -> Result<(UdsMessage, usize), DecodeError> {
    match read_u32(bytes) {
        Err(e) => Err(e),
        Ok((tag, n)) => if tag == 0 {
            match read_request(after(bytes, n as int)) {
                Err(e) => Err(e),
                Ok((m, k)) => Ok((UdsMessage::Public(m), (n + k) as usize)),
            }
        } else if tag == 1 {
            match read_message(after(bytes, n as int)) {
                Err(e) => Err(e),
                Ok((m, k)) => Ok((UdsMessage::Internal(m), (n + k) as usize)),
            }
        } else {
            Err(DecodeError::UnexpectedVariant(tag))
        },
    }
}

/// Reading a flag takes one byte of those that are there.
pub proof fn lemma_bool_stays_inside(bytes: Seq<u8>)
    ensures
        read_bool(bytes) matches Ok((_, n)) ==> n == 1 && n <= bytes.len(),
{
}

/// Reading an optional number takes at most ten of the bytes that are there.
pub proof fn lemma_option_stays_inside(bytes: Seq<u8>)
    ensures
        read_option(bytes) matches Ok((_, n)) ==> 1 <= n <= bytes.len() && n <= 10,
{
    if bytes.len() > 0 && bytes[0] == 1 {
        lemma_read_stays_inside(bytes.subrange(1, bytes.len() as int), 2);
    }
}

/// Appends a request.
pub fn put_request(out: &mut Vec<u8>, m: MessageRequest) -> (r: Result<(), EncodeError>)
    ensures
        r is Ok,
        final(out)@ == old(out)@ + request_bytes(m),
{
    match m {
        MessageRequest::Create { work, rest } => {
            put_u32(out, 0)?;
            put_option(out, work)?;
            put_option(out, rest)?;
        },
        MessageRequest::Queue { work, rest } => {
            put_u32(out, 1)?;
            put_option(out, work)?;
            put_option(out, rest)?;
        },
        MessageRequest::Delete { id, all } => {
            put_u32(out, 2)?;
            put_u16(out, id)?;
            put_bool(out, all);
        },
        MessageRequest::List { show_percentage } => {
            put_u32(out, 3)?;
            put_bool(out, show_percentage);
        },
        MessageRequest::Test => {
            put_u32(out, 4)?;
        },
        MessageRequest::History { should_clear } => {
            put_u32(out, 5)?;
            put_bool(out, should_clear);
        },
    }
    assert(out@ =~= old(out)@ + request_bytes(m));
    Ok(())
}

/// Reads the two optional durations of a creation from the start of `bytes`.
fn take_durations(bytes: &[u8]) -> (r: Result<(Option<u16>, Option<u16>, usize), DecodeError>)
    ensures
        r == read_durations(bytes@),
{
    match take_option(bytes) {
        Err(e) => Err(e),
        Ok((work, n)) => {
            proof {
                lemma_option_stays_inside(bytes@);
            }
            match take_option(slice_subrange(bytes, n, bytes.len())) {
                Err(e) => Err(e),
                Ok((rest, m)) => {
                    proof {
                        lemma_option_stays_inside(after(bytes@, n as int));
                    }
                    Ok((work, rest, n + m))
                },
            }
        },
    }
}

/// Reads the fields of the request with the given tag from the start of `bytes`.
fn take_fields(tag: u32, bytes: &[u8]) -> (r: Result<(MessageRequest, usize), DecodeError>)
    ensures
        r == read_fields(tag, bytes@),
{
    if tag == 0 {
        match take_durations(bytes) {
            Err(e) => Err(e),
            Ok((work, rest, n)) => Ok((MessageRequest::Create { work, rest }, n)),
        }
    } else if tag == 1 {
        match take_durations(bytes) {
            Err(e) => Err(e),
            Ok((work, rest, n)) => Ok((MessageRequest::Queue { work, rest }, n)),
        }
    } else if tag == 2 {
        match take_u16(bytes) {
            Err(e) => Err(e),
            Ok((id, n)) => {
                proof {
                    lemma_read_stays_inside(bytes@, 2);
                }
                match take_bool(slice_subrange(bytes, n, bytes.len())) {
                    Err(e) => Err(e),
                    Ok((all, m)) => Ok((MessageRequest::Delete { id, all }, n + m)),
                }
            },
        }
    } else if tag == 3 {
        match take_bool(bytes) {
            Err(e) => Err(e),
            Ok((show_percentage, n)) => Ok((MessageRequest::List { show_percentage }, n)),
        }
    } else if tag == 4 {
        Ok((MessageRequest::Test, 0))
    } else if tag == 5 {
        match take_bool(bytes) {
            Err(e) => Err(e),
            Ok((should_clear, n)) => Ok((MessageRequest::History { should_clear }, n)),
        }
    } else {
        Err(DecodeError::UnexpectedVariant(tag))
    }
}

/// Reading the fields of a request takes at most twenty of the bytes that
/// are there.
pub proof fn lemma_fields_stay_inside(tag: u32, bytes: Seq<u8>)
    ensures
        read_fields(tag, bytes) matches Ok((_, n)) ==> n <= bytes.len() && n <= 20,
{
    lemma_option_stays_inside(bytes);
    lemma_bool_stays_inside(bytes);
    lemma_read_stays_inside(bytes, 2);
    match read_option(bytes) {
        Ok((_, n)) => lemma_option_stays_inside(after(bytes, n as int)),
        Err(_) => {},
    }
    match read_u16(bytes) {
        Ok((_, n)) => lemma_bool_stays_inside(after(bytes, n as int)),
        Err(_) => {},
    }
}

/// Reads a request from the start of `bytes`.
pub fn take_request(bytes: &[u8]) -> (r: Result<(MessageRequest, usize), DecodeError>)
    ensures
        r == read_request(bytes@),
{
    match take_u32(bytes) {
        Err(e) => Err(e),
        Ok((tag, n)) => {
            proof {
                lemma_read_stays_inside(bytes@, 4);
                lemma_fields_stay_inside(tag, after(bytes@, n as int));
            }
            match take_fields(tag, slice_subrange(bytes, n, bytes.len())) {
                Err(e) => Err(e),
                Ok((m, k)) => Ok((m, n + k)),
            }
        },
    }
}

impl MessageRequest {
    /// The bytes of the request.
    pub fn encode(self) -> (r: Result<Vec<u8>, EncodeError>)
        ensures
            r is Ok,
            r->Ok_0@ == request_bytes(self),
    {
        let mut out: Vec<u8> = Vec::new();
        put_request(&mut out, self)?;
        assert(out@ =~= request_bytes(self));
        Ok(out)
    }

    /// The request that `byte` begins with; what follows it is ignored.
    pub fn decode(byte: &[u8]) -> (r: Result<Self, DecodeError>)
        ensures
            match read_request(byte@) {
                Ok((m, _)) => r == Ok::<Self, DecodeError>(m),
                Err(e) => r == Err::<Self, DecodeError>(e),
            },
    {
        match take_request(byte) {
            Ok((m, _)) => Ok(m),
            Err(e) => Err(e),
        }
    }
}

impl UdsMessage {
    /// The bytes of the message.
    pub fn encode(self) -> (r: Result<Vec<u8>, EncodeError>)
        ensures
            r is Ok,
            r->Ok_0@ == uds_bytes(self),
    {
        let mut out: Vec<u8> = Vec::new();
        match self {
            UdsMessage::Public(request) => {
                put_u32(&mut out, 0)?;
                put_request(&mut out, request)?;
            },
            UdsMessage::Internal(message) => {
                put_u32(&mut out, 1)?;
                put_message(&mut out, message)?;
            },
        }
        assert(out@ =~= uds_bytes(self));
        Ok(out)
    }

    /// The message that `byte` begins with; what follows it is ignored.
    pub fn decode(byte: &[u8]) -> (r: Result<Self, DecodeError>)
        ensures
            match read_uds(byte@) {
                Ok((m, _)) => r == Ok::<Self, DecodeError>(m),
                Err(e) => r == Err::<Self, DecodeError>(e),
            },
    {
        match take_u32(byte) {
            Err(e) => Err(e),
            Ok((tag, n)) => {
                proof {
                    lemma_read_stays_inside(byte@, 4);
                }
                let rest = slice_subrange(byte, n, byte.len());
                if tag == 0 {
                    match take_request(rest) {
                        Ok((m, _)) => Ok(UdsMessage::Public(m)),
                        Err(e) => Err(e),
                    }
                } else if tag == 1 {
                    match take_message(rest) {
                        Ok((m, _)) => Ok(UdsMessage::Internal(m)),
                        Err(e) => Err(e),
                    }
                } else {
                    Err(DecodeError::UnexpectedVariant(tag))
                }
            },
        }
    }
}

/// A flag reads back as itself, whatever follows it.
pub proof fn lemma_bool_round_trip(flag: bool, tail: Seq<u8>)
    ensures
        read_bool(bool_bytes(flag) + tail) == Ok::<(bool, usize), DecodeError>((flag, 1usize)),
        bool_bytes(flag).len() == 1,
        after(bool_bytes(flag) + tail, 1) == tail,
{
    let bytes = bool_bytes(flag) + tail;
    assert(bytes[0] == bool_bytes(flag)[0]);
    assert(after(bytes, 1) =~= tail);
}

/// A number of two bytes reads back as itself, whatever follows it.
pub proof fn lemma_u16_round_trip(v: u16, tail: Seq<u8>)
    ensures
        read_u16(varint(v as nat) + tail) == Ok::<(u16, usize), DecodeError>(
            (v, varint(v as nat).len() as usize),
        ),
        after(varint(v as nat) + tail, varint(v as nat).len() as int) == tail,
{
    lemma_varint_round_trip(v as nat, 2, tail);
    lemma_varint_len(v as nat);
    assert(after(varint(v as nat) + tail, varint(v as nat).len() as int) =~= tail);
}

/// A number of four bytes reads back as itself, whatever follows it.
pub proof fn lemma_u32_round_trip(v: u32, tail: Seq<u8>)
    ensures
        read_u32(varint(v as nat) + tail) == Ok::<(u32, usize), DecodeError>(
            (v, varint(v as nat).len() as usize),
        ),
        after(varint(v as nat) + tail, varint(v as nat).len() as int) == tail,
{
    lemma_varint_round_trip(v as nat, 4, tail);
    lemma_varint_len(v as nat);
    assert(after(varint(v as nat) + tail, varint(v as nat).len() as int) =~= tail);
}

/// An optional number reads back as itself, whatever follows it.
pub proof fn lemma_option_round_trip(value: Option<u16>, tail: Seq<u8>)
    ensures
        read_option(option_bytes(value) + tail) == Ok::<(Option<u16>, usize), DecodeError>(
            (value, option_bytes(value).len() as usize),
        ),
        after(option_bytes(value) + tail, option_bytes(value).len() as int) == tail,
        option_bytes(value).len() <= 10,
{
    let bytes = option_bytes(value) + tail;
    assert(bytes[0] == option_bytes(value)[0]);
    match value {
        None => {
            assert(after(bytes, 1) =~= tail);
        },
        Some(v) => {
            lemma_u16_round_trip(v, tail);
            lemma_varint_len(v as nat);
            assert(bytes.subrange(1, bytes.len() as int) =~= varint(v as nat) + tail);
            assert(after(bytes, option_bytes(value).len() as int) =~= tail);
        },
    }
}

/// The two optional durations of a creation read back as themselves,
/// whatever follows them.
pub proof fn lemma_durations_round_trip(work: Option<u16>, rest: Option<u16>, tail: Seq<u8>)
    ensures
        read_durations(option_bytes(work) + option_bytes(rest) + tail) == Ok::<
            (Option<u16>, Option<u16>, usize),
            DecodeError,
        >((work, rest, (option_bytes(work).len() + option_bytes(rest).len()) as usize)),
{
    let bytes = option_bytes(work) + option_bytes(rest) + tail;
    assert(bytes =~= option_bytes(work) + (option_bytes(rest) + tail));
    lemma_option_round_trip(work, option_bytes(rest) + tail);
    lemma_option_round_trip(rest, tail);
}

/// The fields of every request read back as the request, whatever follows
/// them.
pub proof fn lemma_fields_round_trip(m: MessageRequest, tail: Seq<u8>)
    ensures
        read_fields(tag_of(m), fields_bytes(m) + tail) == Ok::<
            (MessageRequest, usize),
            DecodeError,
        >((m, fields_bytes(m).len() as usize)),
        fields_bytes(m).len() <= 20,
{
    let bytes = fields_bytes(m) + tail;
    match m {
        MessageRequest::Create { work, rest } => {
            lemma_durations_round_trip(work, rest, tail);
            lemma_option_round_trip(work, tail);
            lemma_option_round_trip(rest, tail);
        },
        MessageRequest::Queue { work, rest } => {
            lemma_durations_round_trip(work, rest, tail);
            lemma_option_round_trip(work, tail);
            lemma_option_round_trip(rest, tail);
        },
        MessageRequest::Delete { id, all } => {
            assert(bytes =~= varint(id as nat) + (bool_bytes(all) + tail));
            lemma_u16_round_trip(id, bool_bytes(all) + tail);
            lemma_bool_round_trip(all, tail);
            lemma_varint_len(id as nat);
        },
        MessageRequest::List { show_percentage } => {
            lemma_bool_round_trip(show_percentage, tail);
        },
        MessageRequest::Test => {
            assert(bytes =~= tail);
        },
        MessageRequest::History { should_clear } => {
            lemma_bool_round_trip(should_clear, tail);
        },
    }
}

/// Every request reads back from its bytes as itself, whatever follows them:
/// decoding undoes encoding.
pub proof fn lemma_request_round_trip(m: MessageRequest, tail: Seq<u8>)
    ensures
        read_request(request_bytes(m) + tail) == Ok::<(MessageRequest, usize), DecodeError>(
            (m, request_bytes(m).len() as usize),
        ),
        request_bytes(m).len() <= 25,
{
    let bytes = request_bytes(m) + tail;
    let fields = fields_bytes(m) + tail;
    assert(bytes =~= varint(tag_of(m) as nat) + fields);
    lemma_u32_round_trip(tag_of(m), fields);
    lemma_fields_round_trip(m, tail);
    lemma_varint_len(tag_of(m) as nat);
}

/// Every message of the handshake reads back from its bytes as itself,
/// whatever follows them.
pub proof fn lemma_internal_round_trip(m: Message, tail: Seq<u8>)
    ensures
        read_message(message_bytes(m) + tail) == Ok::<(Message, usize), DecodeError>((m, 1usize)),
        message_bytes(m).len() == 1,
{
    match m {
        Message::Ping => lemma_u32_round_trip(0, tail),
        Message::Pong => lemma_u32_round_trip(1, tail),
    }
}

/// Every message to the scheduler reads back from its bytes as itself,
/// whatever follows them: one way of reading tells requests and handshake
/// messages apart.
pub proof fn lemma_uds_round_trip(m: UdsMessage, tail: Seq<u8>)
    ensures
        read_uds(uds_bytes(m) + tail) == Ok::<(UdsMessage, usize), DecodeError>(
            (m, uds_bytes(m).len() as usize),
        ),
{
    let bytes = uds_bytes(m) + tail;
    match m {
        UdsMessage::Public(request) => {
            assert(bytes =~= varint(0) + (request_bytes(request) + tail));
            lemma_u32_round_trip(0, request_bytes(request) + tail);
            lemma_request_round_trip(request, tail);
        },
        UdsMessage::Internal(message) => {
            assert(bytes =~= varint(1) + (message_bytes(message) + tail));
            lemma_u32_round_trip(1, message_bytes(message) + tail);
            lemma_internal_round_trip(message, tail);
        },
    }
}

/// The bytes of the lines of a response, one text after the other.
pub open spec fn lines_bytes(lines: Seq<Seq<char>>) -> Seq<u8>
    decreases lines.len(),
{
    if lines.len() == 0 {
        Seq::<u8>::empty()
    } else {
        text_bytes(lines[0]) + lines_bytes(lines.subrange(1, lines.len() as int))
    }
}

/// The bytes of a response: the number of its lines, then the lines.
pub open spec fn response_bytes(lines: Seq<Seq<char>>) -> Seq<u8> {
    varint(lines.len()) + lines_bytes(lines)
}

/// A result with `front` put before the lines it holds.
pub open spec fn preceded(front: Seq<Seq<char>>, read: Result<Seq<Seq<char>>, DecodeError>) -> Result<
    Seq<Seq<char>>,
    DecodeError,
> {
    match read {
        Ok(lines) => Ok(front + lines),
        Err(e) => Err(e),
    }
}

/// Reads `count` texts, one after the other.
pub open spec fn read_lines(bytes: Seq<u8>, count: nat) -> Result<Seq<Seq<char>>, DecodeError>
    decreases count,
{
    if count == 0 {
        Ok(Seq::<Seq<char>>::empty())
    } else {
        match read_text(bytes) {
            Err(e) => Err(e),
            Ok((text, n)) => preceded(seq![text], read_lines(after(bytes, n as int), (count - 1) as nat)),
        }
    }
}

/// Reads a response: its lines. A count that promises more lines than the
/// bytes hold is refused as soon as the bytes run out.
pub open spec fn read_response(bytes: Seq<u8>) -> Result<Seq<Seq<char>>, DecodeError> {
    match read_u64(bytes) {
        Err(e) => Err(e),
        Ok((count, n)) => read_lines(after(bytes, n as int), count as nat),
    }
}

/// The line with which the session answers a command it could not handle.
pub open spec fn failure_line(reason: Seq<char>) -> Seq<char> {
    "There was an error analyzing the input: "@ + reason
}

/// Reading a text never takes more bytes than there are.
pub proof fn lemma_text_stays_inside(bytes: Seq<u8>)
    ensures
        read_text(bytes) matches Ok((_, n)) ==> 1 <= n <= bytes.len(),
{
    lemma_read_stays_inside(bytes, 8);
}

/// The bytes of lines with one more line at the end.
pub proof fn lemma_lines_bytes_push(lines: Seq<Seq<char>>, text: Seq<char>)
    ensures
        lines_bytes(lines.push(text)) == lines_bytes(lines) + text_bytes(text),
    decreases lines.len(),
{
    let more = lines.push(text);
    if lines.len() == 0 {
        assert(more.subrange(1, more.len() as int) =~= Seq::<Seq<char>>::empty());
        assert(more[0] == text);
        assert(lines_bytes(Seq::<Seq<char>>::empty()) =~= Seq::<u8>::empty());
        assert(lines_bytes(lines) =~= Seq::<u8>::empty());
        assert(lines_bytes(more) =~= text_bytes(text) + Seq::<u8>::empty());
        assert(lines_bytes(more) =~= lines_bytes(lines) + text_bytes(text));
    } else {
        let tail = lines.subrange(1, lines.len() as int);
        lemma_lines_bytes_push(tail, text);
        assert(more.subrange(1, more.len() as int) =~= tail.push(text));
        assert(more[0] == lines[0]);
        assert(lines_bytes(more) =~= lines_bytes(lines) + text_bytes(text));
    }
}

impl MessageResponse {
    /// The report lines of the response, in order.
    pub closed spec fn lines(&self) -> Seq<String> {
        self.body@
    }

    /// A response with the given report lines.
    pub fn new(body: Vec<String>) -> (r: Self)
        ensures
            r.lines() == body@,
    {
        MessageResponse { body }
    }

    /// The report lines of the response, in order.
    pub fn get_body(&self) -> (r: &Vec<String>)
        ensures
            r@ == self.lines(),
    {
        &self.body
    }

    /// The bytes of the response.
    pub fn encode(self) -> (r: Result<Vec<u8>, EncodeError>)
        ensures
            r is Ok,
            r->Ok_0@ == response_bytes(texts(self.lines())),
    {
        let ghost lines = texts(self.body@);
        let mut out: Vec<u8> = Vec::new();
        put_u64(&mut out, self.body.len() as u64)?;
        let mut i: usize = 0;
        while i < self.body.len()
            invariant
                0 <= i <= self.body@.len(),
                lines == texts(self.body@),
                out@ == varint(lines.len()) + lines_bytes(lines.take(i as int)),
            decreases self.body@.len() - i,
        {
            let ghost before = out@;
            put_text(&mut out, self.body[i].as_str())?;
            proof {
                lemma_lines_bytes_push(lines.take(i as int), lines[i as int]);
                assert(lines.take(i + 1) =~= lines.take(i as int).push(lines[i as int]));
                assert(out@ =~= varint(lines.len()) + lines_bytes(lines.take(i + 1)));
            }
            i = i + 1;
        }
        assert(lines.take(i as int) =~= lines);
        Ok(out)
    }

    /// The response that `byte` begins with; what follows it is ignored.
    pub fn decode(byte: &[u8]) -> (r: Result<Self, DecodeError>)
        ensures
            match read_response(byte@) {
                Ok(lines) => r is Ok && texts(r->Ok_0.lines()) == lines,
                Err(e) => r == Err::<Self, DecodeError>(e),
            },
    {
        match take_u64(byte) {
            Err(e) => Err(e),
            Ok((count, n)) => {
                proof {
                    lemma_read_stays_inside(byte@, 8);
                }
                let mut rest = slice_subrange(byte, n, byte.len());
                let ghost all = rest@;
                let mut body: Vec<String> = Vec::new();
                let mut remaining: u64 = count;
                assert(preceded(texts(body@), read_lines(rest@, remaining as nat)) == read_lines(
                    all,
                    count as nat,
                )) by {
                    assert(texts(body@) =~= Seq::<Seq<char>>::empty());
                    match read_lines(all, count as nat) {
                        Ok(lines) => assert(Seq::<Seq<char>>::empty() + lines =~= lines),
                        Err(_) => {},
                    }
                }
                assert(read_response(byte@) == read_lines(all, count as nat));
                while remaining > 0
                    invariant
                        read_response(byte@) == read_lines(all, count as nat),
                        preceded(texts(body@), read_lines(rest@, remaining as nat)) == read_lines(
                            all,
                            count as nat,
                        ),
                    decreases remaining,
                {
                    match take_text(rest) {
                        Err(e) => {
                            return Err(e);
                        },
                        Ok((text, k)) => {
                            proof {
                                lemma_text_stays_inside(rest@);
                                let front = texts(body@);
                                let next = read_lines(after(rest@, k as int), (remaining - 1) as nat);
                                assert(texts(body@.push(text)) =~= front.push(text@));
                                match next {
                                    Ok(lines) => assert(front + (seq![text@] + lines)
                                        =~= front.push(text@) + lines),
                                    Err(_) => {},
                                }
                            }
                            body.push(text);
                            rest = slice_subrange(rest, k, rest.len());
                            remaining = remaining - 1;
                        },
                    }
                }
                assert(texts(body@) + Seq::<Seq<char>>::empty() =~= texts(body@));
                Ok(MessageResponse { body })
            },
        }
    }

    /// The response to a command: its report lines where it was handled,
    /// else one line that says why it was not.
    pub fn answer(outcome: Result<Vec<String>, String>) -> (r: Self)
        ensures
            match outcome {
                Ok(lines) => r.lines() == lines@,
                Err(reason) => texts(r.lines()) == seq![failure_line(reason@)],
            },
    {
        match outcome {
            Ok(lines) => MessageResponse::new(lines),
            Err(reason) => {
                let mut body: Vec<String> = Vec::new();
                body.push(
                    String::from_str("There was an error analyzing the input: ").concat(
                        reason.as_str(),
                    ),
                );
                assert(texts(body@) =~= seq![failure_line(reason@)]);
                MessageResponse::new(body)
            },
        }
    }
}

/// A text reads back as itself, whatever follows it.
pub proof fn lemma_text_round_trip(text: Seq<char>, tail: Seq<u8>)
    requires
        encode_utf8(text).len() < 0x1_0000_0000_0000_0000,
    ensures
        read_text(text_bytes(text) + tail) == Ok::<(Seq<char>, nat), DecodeError>(
            (text, text_bytes(text).len()),
        ),
        after(text_bytes(text) + tail, text_bytes(text).len() as int) == tail,
        text_bytes(text).len() < 0x1_0000_0000_0000_0000 + 9,
{
    let utf8 = encode_utf8(text);
    let head = varint(utf8.len());
    let bytes = text_bytes(text) + tail;
    assert(bytes =~= head + (utf8 + tail));
    lemma_varint_round_trip(utf8.len(), 8, utf8 + tail);
    lemma_varint_len(utf8.len());
    encode_utf8_valid_utf8(text);
    encode_utf8_decode_utf8(text);
    assert(bytes.subrange(head.len() as int, (head.len() + utf8.len()) as int) =~= utf8);
    assert(after(bytes, text_bytes(text).len() as int) =~= tail);
}

/// The lines of a response read back as themselves, whatever follows them.
pub proof fn lemma_lines_round_trip(lines: Seq<Seq<char>>, tail: Seq<u8>)
    requires
        forall|i: int|
            0 <= i < lines.len() ==> encode_utf8(#[trigger] lines[i]).len()
                < 0x1_0000_0000_0000_0000,
    ensures
        read_lines(lines_bytes(lines) + tail, lines.len()) == Ok::<Seq<Seq<char>>, DecodeError>(
            lines,
        ),
    decreases lines.len(),
{
    if lines.len() > 0 {
        let rest = lines.subrange(1, lines.len() as int);
        let bytes = lines_bytes(lines) + tail;
        assert(bytes =~= text_bytes(lines[0]) + (lines_bytes(rest) + tail));
        lemma_text_round_trip(lines[0], lines_bytes(rest) + tail);
        assert forall|i: int| 0 <= i < rest.len() implies encode_utf8(#[trigger] rest[i]).len()
            < 0x1_0000_0000_0000_0000 by {
            assert(rest[i] == lines[i + 1]);
        }
        lemma_lines_round_trip(rest, tail);
        assert(seq![lines[0]] + rest =~= lines);
    } else {
        assert(lines =~= Seq::<Seq<char>>::empty());
    }
}

/// Every response of fewer than 2^64 lines, each shorter than 2^64 bytes,
/// reads back from its bytes as itself, whatever follows them.
pub proof fn lemma_response_round_trip(lines: Seq<Seq<char>>, tail: Seq<u8>)
    requires
        lines.len() < 0x1_0000_0000_0000_0000,
        forall|i: int|
            0 <= i < lines.len() ==> encode_utf8(#[trigger] lines[i]).len()
                < 0x1_0000_0000_0000_0000,
    ensures
        read_response(response_bytes(lines) + tail) == Ok::<Seq<Seq<char>>, DecodeError>(lines),
{
    let bytes = response_bytes(lines) + tail;
    let head = varint(lines.len());
    assert(bytes =~= head + (lines_bytes(lines) + tail));
    lemma_varint_round_trip(lines.len(), 8, lines_bytes(lines) + tail);
    lemma_varint_len(lines.len());
    assert(after(bytes, head.len() as int) =~= lines_bytes(lines) + tail);
    lemma_lines_round_trip(lines, tail);
}

/// The flags with which a command line names the durations of a creation.
pub open spec fn duration_flags(work: Option<u16>, rest: Option<u16>) -> Seq<char> {
    (match work {
        Some(v) => "-w "@ + decimal(v as nat) + " "@,
        None => Seq::<char>::empty(),
    }) + (match rest {
        Some(v) => "-b "@ + decimal(v as nat),
        None => Seq::<char>::empty(),
    })
}

/// The command line that asks the session for what a request asks.
pub open spec fn input_line(m: MessageRequest) -> Seq<char> {
    match m {
        MessageRequest::Create { work, rest } => ActionType::Create.name() + " "@ + duration_flags(
            work,
            rest,
        ),
        MessageRequest::Queue { work, rest } => ActionType::Queue.name() + " "@ + duration_flags(
            work,
            rest,
        ),
        MessageRequest::Delete { id, all } => if all {
            ActionType::Delete.name() + " -a"@
        } else {
            ActionType::Delete.name() + " -i "@ + decimal(id as nat)
        },
        MessageRequest::List { show_percentage } => if show_percentage {
            ActionType::List.name() + " -p"@
        } else {
            ActionType::List.name()
        },
        MessageRequest::Test => ActionType::Test.name(),
        MessageRequest::History { should_clear } => if should_clear {
            ActionType::History.name() + " --clear"@
        } else {
            ActionType::History.name()
        },
    }
}

/// Appends the flags that name the durations of a creation.
fn with_duration_flags(line: String, work: Option<u16>, rest: Option<u16>) -> (r: String)
    ensures
        r@ == line@ + duration_flags(work, rest),
{
    let ghost start = line@;
    let line = match work {
        Some(v) => line.concat("-w ").concat(decimal_string(v as u64).as_str()).concat(" "),
        None => line,
    };
    let line = match rest {
        Some(v) => line.concat("-b ").concat(decimal_string(v as u64).as_str()),
        None => line,
    };
    assert(line@ =~= start + duration_flags(work, rest));
    line
}

impl UserInput {
    /// The command line that asks the session for what `request` asks,
    /// marked as come over the control channel.
    pub fn from_request(request: MessageRequest) -> (r: Self)
        ensures
            r.input@ == input_line(request),
            r.source == InputSource::UnixDomainSocket,
    {
        let input = match request {
            MessageRequest::Create { work, rest } => with_duration_flags(
                String::from_str(ActionType::Create.keyword()).concat(" "),
                work,
                rest,
            ),
            MessageRequest::Queue { work, rest } => with_duration_flags(
                String::from_str(ActionType::Queue.keyword()).concat(" "),
                work,
                rest,
            ),
            MessageRequest::Delete { id, all } => if all {
                String::from_str(ActionType::Delete.keyword()).concat(" -a")
            } else {
                String::from_str(ActionType::Delete.keyword()).concat(" -i ").concat(
                    decimal_string(id as u64).as_str(),
                )
            },
            MessageRequest::List { show_percentage } => if show_percentage {
                String::from_str(ActionType::List.keyword()).concat(" -p")
            } else {
                String::from_str(ActionType::List.keyword())
            },
            MessageRequest::Test => String::from_str(ActionType::Test.keyword()),
            MessageRequest::History { should_clear } => if should_clear {
                String::from_str(ActionType::History.keyword()).concat(" --clear")
            } else {
                String::from_str(ActionType::History.keyword())
            },
        };
        UserInput { input, source: InputSource::UnixDomainSocket }
    }
}

impl From<MessageRequest> for UserInput {
    /// The command line that asks the session for what `request` asks,
    /// marked as come over the control channel.
    fn from(request: MessageRequest) -> (r: Self)
        ensures
            r.input@ == input_line(request),
            r.source == InputSource::UnixDomainSocket,
    {
        UserInput::from_request(request)
    }
}

/// The conversion is stated by the characters of the command line, on `from`
/// itself; as a value it is not named.
impl vstd::std_specs::convert::FromSpecImpl<MessageRequest> for UserInput {
    open spec fn obeys_from_spec() -> bool {
        false
    }

    open spec fn from_spec(request: MessageRequest) -> Self {
        arbitrary()
    }
}

/// What travels over the control channel: a value with its bytes, and the
/// way back from bytes to the value.
pub trait Bincodec: Sized {
    /// The bytes of the value.
    spec fn wire(&self) -> Seq<u8>;

    /// `read` is what reading `bytes` as a value of this type gives.
    spec fn reads(bytes: Seq<u8>, read: Result<Self, DecodeError>) -> bool;

    /// The value is small enough for its lengths to be written.
    spec fn sendable(&self) -> bool;

    /// A value that can be sent reads back from its bytes as itself,
    /// whatever follows them.
    proof fn lemma_round_trip(self, tail: Seq<u8>)
        requires
            self.sendable(),
        ensures
            Self::reads(self.wire() + tail, Ok(self)),
    ;

    /// The bytes of the value.
    fn encode(self) -> (r: Result<Vec<u8>, EncodeError>)
        ensures
            r is Ok,
            r->Ok_0@ == self.wire(),
    ;

    /// The value that `byte` begins with; what follows it is ignored.
    fn decode(byte: &[u8]) -> (r: Result<Self, DecodeError>)
        ensures
            Self::reads(byte@, r),
    ;
}

impl Bincodec for MessageRequest {
    open spec fn wire(&self) -> Seq<u8> {
        request_bytes(*self)
    }

    open spec fn reads(bytes: Seq<u8>, read: Result<Self, DecodeError>) -> bool {
        match read_request(bytes) {
            Ok((m, _)) => read == Ok::<Self, DecodeError>(m),
            Err(e) => read == Err::<Self, DecodeError>(e),
        }
    }

    open spec fn sendable(&self) -> bool {
        true
    }

    proof fn lemma_round_trip(self, tail: Seq<u8>) {
        lemma_request_round_trip(self, tail);
    }

    fn encode(self) -> (r: Result<Vec<u8>, EncodeError>) {
        MessageRequest::encode(self)
    }

    fn decode(byte: &[u8]) -> (r: Result<Self, DecodeError>) {
        MessageRequest::decode(byte)
    }
}

impl Bincodec for UdsMessage {
    open spec fn wire(&self) -> Seq<u8> {
        uds_bytes(*self)
    }

    open spec fn reads(bytes: Seq<u8>, read: Result<Self, DecodeError>) -> bool {
        match read_uds(bytes) {
            Ok((m, _)) => read == Ok::<Self, DecodeError>(m),
            Err(e) => read == Err::<Self, DecodeError>(e),
        }
    }

    open spec fn sendable(&self) -> bool {
        true
    }

    proof fn lemma_round_trip(self, tail: Seq<u8>) {
        lemma_uds_round_trip(self, tail);
    }

    fn encode(self) -> (r: Result<Vec<u8>, EncodeError>) {
        UdsMessage::encode(self)
    }

    fn decode(byte: &[u8]) -> (r: Result<Self, DecodeError>) {
        UdsMessage::decode(byte)
    }
}

impl Bincodec for MessageResponse {
    open spec fn wire(&self) -> Seq<u8> {
        response_bytes(texts(self.lines()))
    }

    open spec fn reads(bytes: Seq<u8>, read: Result<Self, DecodeError>) -> bool {
        match read_response(bytes) {
            Ok(lines) => read is Ok && texts(read->Ok_0.lines()) == lines,
            Err(e) => read == Err::<Self, DecodeError>(e),
        }
    }

    open spec fn sendable(&self) -> bool {
        &&& self.lines().len() < 0x1_0000_0000_0000_0000
        &&& forall|i: int|
            0 <= i < self.lines().len() ==> encode_utf8(#[trigger] texts(self.lines())[i]).len()
                < 0x1_0000_0000_0000_0000
    }

    proof fn lemma_round_trip(self, tail: Seq<u8>) {
        lemma_response_round_trip(texts(self.lines()), tail);
    }

    fn encode(self) -> (r: Result<Vec<u8>, EncodeError>) {
        MessageResponse::encode(self)
    }

    fn decode(byte: &[u8]) -> (r: Result<Self, DecodeError>) {
        MessageResponse::decode(byte)
    }
}

} // verus!
