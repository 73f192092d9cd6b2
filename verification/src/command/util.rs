//! Reading the arguments of a command, and the prompt of the console.

use vstd::prelude::*;
use vstd::string::*;
use std::io::{BufRead, Write};
use crate::command::application::{DEFAULT_BREAK_TIME, DEFAULT_WORK_TIME};
use crate::configuration::Configuration;
use crate::error::ParseError;

verus! {

/// The prompt that invites the next command.
pub const PROMPT: &'static str = "> ";

/// The value of a digit character; nothing for any other character.
pub open spec fn digit_value(c: char) -> nat {
    if '0' <= c <= '9' {
        (c as int - '0' as int) as nat
    } else {
        0
    }
}

/// Every character is one of the digits `0` to `9`.
pub open spec fn all_digits(s: Seq<char>) -> bool {
    forall|i: int| 0 <= i < s.len() ==> '0' <= #[trigger] s[i] <= '9'
}

/// The number that a run of digits writes in decimal notation.
pub open spec fn digits_value(s: Seq<char>) -> nat
    decreases s.len(),
{
    if s.len() == 0 {
        0
    } else {
        digits_value(s.drop_last()) * 10 + digit_value(s.last())
    }
}

/// The text without the one plus sign it may begin with.
pub open spec fn without_plus(s: Seq<char>) -> Seq<char> {
    if s.len() > 0 && s[0] == '+' {
        s.subrange(1, s.len() as int)
    } else {
        s
    }
}

/// The number below 65536 that a text writes: an optional plus sign, then
/// one or more decimal digits and nothing else.
pub open spec fn parsed_u16(s: Seq<char>) -> Option<u16> {
    let digits = without_plus(s);
    if digits.len() > 0 && all_digits(digits) && digits_value(digits) <= u16::MAX {
        Some(digits_value(digits) as u16)
    } else {
        None
    }
}

/// A run of digits writes no smaller a number than any run it begins with.
proof fn lemma_digits_value_grows(s: Seq<char>, k: int)
    requires
        0 <= k <= s.len(),
    ensures
        digits_value(s.take(k)) <= digits_value(s),
    decreases s.len(),
{
    if k == s.len() {
        assert(s.take(k) =~= s);
    } else {
        lemma_digits_value_grows(s.drop_last(), k);
        assert(s.drop_last().take(k) =~= s.take(k));
    }
}

/// Reads a number below 65536: an optional plus sign, then one or more
/// decimal digits and nothing else.
pub fn parse_u16(s: &str) -> (r: Option<u16>)
    ensures
        r == parsed_u16(s@),
{
    let len = s.unicode_len();
    let start: usize = if len > 0 && s.get_char(0) == '+' {
        1
    } else {
        0
    };
    if start == len {
        return None;
    }
    let ghost digits = without_plus(s@);
    let mut value: u32 = 0;
    let mut i: usize = start;
    assert(digits.take(0) =~= Seq::<char>::empty());
    while i < len
        invariant
            len == s@.len(),
            digits == without_plus(s@),
            digits.len() == len - start,
            start <= i <= len,
            start == 0 || start == 1,
            forall|k: int| 0 <= k < digits.len() ==> digits[k] == s@[k + start],
            all_digits(digits.take(i - start)),
            value == digits_value(digits.take(i - start)),
            value <= u16::MAX,
        decreases len - i,
    {
        let c = s.get_char(i);
        let ghost seen = digits.take(i - start + 1);
        proof {
            assert(seen.drop_last() =~= digits.take(i - start));
            assert(seen.last() == c);
        }
        if !(c >= '0' && c <= '9') {
            assert(digits[i - start] == c);
            return None;
        }
        let d: u32 = c as u32 - '0' as u32;
        value = value * 10 + d;
        if value > 65535 {
            proof {
                lemma_digits_value_grows(digits, i - start + 1);
            }
            return None;
        }
        i = i + 1;
    }
    assert(digits.take(i - start) =~= digits);
    Some(value as u16)
}

/// The text of the error for an argument that was not given.
pub open spec fn missing_arg_text(arg_name: Seq<char>) -> Seq<char> {
    "failed to get ("@ + arg_name + ") from cli"@
}

/// The text of the error for an argument that is no number.
pub open spec fn bad_arg_text(value: Seq<char>) -> Seq<char> {
    "failed to parse arg ("@ + value + ")"@
}

/// The value given for the argument `arg_name`, or the error that it is
/// missing.
pub fn get_arg(value: Option<&str>, arg_name: &str) -> (r: Result<String, ParseError>)
    ensures
        match value {
            Some(given) => r is Ok && r->Ok_0@ == given@,
            None => r is Err && r->Err_0.message() == Some(missing_arg_text(arg_name@)),
        },
{
    match value {
        Some(given) => Ok(String::from_str(given)),
        None => {
            let message = String::from_str("failed to get (").concat(arg_name).concat(
                ") from cli",
            );
            Err(ParseError::new(message))
        },
    }
}

/// The number given for the argument `arg_name`: an error where the
/// argument is missing, and another where its value is no number below 65536.
pub fn parse_arg(value: Option<&str>, arg_name: &str) -> (r: Result<u16, ParseError>)
    ensures
        match value {
            Some(given) => match parsed_u16(given@) {
                Some(number) => r == Ok::<u16, ParseError>(number),
                None => r is Err && r->Err_0.message() == Some(bad_arg_text(given@)),
            },
            None => r is Err && r->Err_0.message() == Some(missing_arg_text(arg_name@)),
        },
{
    match value {
        Some(given) => match parse_u16(given) {
            Some(number) => Ok(number),
            None => {
                let message = String::from_str("failed to parse arg (").concat(given).concat(")");
                Err(ParseError::new(message))
            },
        },
        None => {
            let message = String::from_str("failed to get (").concat(arg_name).concat(
                ") from cli",
            );
            Err(ParseError::new(message))
        },
    }
}

/// The characters of an argument, if it is there.
pub open spec fn text_of(value: Option<&str>) -> Option<Seq<char>> {
    match value {
        Some(given) => Some(given@),
        None => None,
    }
}

/// The number that an argument gives, if it is there and is a number.
pub open spec fn given_number(value: Option<Seq<char>>) -> Option<u16> {
    match value {
        Some(given) => parsed_u16(given),
        None => None,
    }
}

/// The minutes of one phase where a configuration stands behind the command
/// and the argument, if given, is a number: the number given, else the
/// configured default, else the built-in default.
pub open spec fn resolved_minutes(
    value: Option<Seq<char>>,
    configured: Option<u16>,
    fallback: u16,
) -> u16 {
    match given_number(value) {
        Some(number) => number,
        None => match configured {
            Some(number) => number,
            None => fallback,
        },
    }
}

/// The argument is given and is no number below 65536.
pub open spec fn malformed(value: Option<Seq<char>>) -> bool {
    value matches Some(given) && parsed_u16(given) is None
}

/// The first of the two duration arguments that is given and is no number
/// below 65536, if there is one.
pub open spec fn first_malformed(work: Option<Seq<char>>, rest: Option<Seq<char>>) -> Option<
    Seq<char>,
> {
    if malformed(work) {
        work
    } else if malformed(rest) {
        rest
    } else {
        None
    }
}

/// The number that a duration argument gives: nothing where it is not
/// given, and the error that quotes it where it is no number below 65536.
fn parse_minutes(value: Option<&str>) -> (r: Result<Option<u16>, ParseError>)
    ensures
        match value {
            Some(given) => match parsed_u16(given@) {
                Some(number) => r == Ok::<Option<u16>, ParseError>(Some(number)),
                None => r is Err && r->Err_0.message() == Some(bad_arg_text(given@)),
            },
            None => r == Ok::<Option<u16>, ParseError>(None),
        },
{
    match value {
        Some(given) => match parse_u16(given) {
            Some(number) => Ok(Some(number)),
            None => {
                let message = String::from_str("failed to parse arg (").concat(given).concat(")");
                Err(ParseError::new(message))
            },
        },
        None => Ok(None),
    }
}

/// The work and break minutes that a creation runs with.
///
/// A duration that is given but is no number below 65536 is refused with an
/// error that quotes it, the work minutes before the break minutes. With a
/// configuration both durations are then settled: the number given on the
/// command line, else the default of the configuration, else 25 minutes of
/// work and 5 of break. Without one, as on the side that only sends the
/// request, each is the number given on the command line or nothing.
pub fn parse_work_and_break_time(
    work: Option<&str>,
    rest: Option<&str>,
    configuration: Option<&Configuration>,
) -> (r: Result<(Option<u16>, Option<u16>), ParseError>)
    ensures
        match first_malformed(text_of(work), text_of(rest)) {
            Some(value) => r is Err && r->Err_0.message() == Some(bad_arg_text(value)),
            None => match configuration {
                Some(conf) => r == Ok::<(Option<u16>, Option<u16>), ParseError>(
                    (
                        Some(resolved_minutes(text_of(work), conf.work_time(), DEFAULT_WORK_TIME)),
                        Some(
                            resolved_minutes(text_of(rest), conf.break_time(), DEFAULT_BREAK_TIME),
                        ),
                    ),
                ),
                None => r == Ok::<(Option<u16>, Option<u16>), ParseError>(
                    (given_number(text_of(work)), given_number(text_of(rest))),
                ),
            },
        },
{
    let given_work = match parse_minutes(work) {
        Ok(given) => given,
        Err(e) => {
            return Err(e);
        },
    };
    let given_rest = match parse_minutes(rest) {
        Ok(given) => given,
        Err(e) => {
            return Err(e);
        },
    };
    match configuration {
        Some(conf) => {
            let mut work_time = match conf.get_work_time() {
                Some(work_time) => work_time,
                None => DEFAULT_WORK_TIME,
            };
            let mut break_time = match conf.get_break_time() {
                Some(break_time) => break_time,
                None => DEFAULT_BREAK_TIME,
            };
            if let Some(val) = given_work {
                work_time = val;
            }
            if let Some(val) = given_rest {
                break_time = val;
            }
            Ok((Some(work_time), Some(break_time)))
        },
        None => Ok((given_work, given_rest)),
    }
}

/// Whether Unicode counts the character as white space.
pub open spec fn white_space(c: char) -> bool {
    let code = c as u32;
    ||| 0x09 <= code <= 0x0D
    ||| code == 0x20
    ||| code == 0x85
    ||| code == 0xA0
    ||| code == 0x1680
    ||| 0x2000 <= code <= 0x200A
    ||| code == 0x2028
    ||| code == 0x2029
    ||| code == 0x202F
    ||| code == 0x205F
    ||| code == 0x3000
}

/// A text without the white space at its start and at its end.
pub open spec fn trimmed(s: Seq<char>) -> Seq<char>
    decreases s.len(),
{
    if s.len() > 0 && white_space(s[0]) {
        trimmed(s.subrange(1, s.len() as int))
    } else if s.len() > 0 && white_space(s.last()) {
        trimmed(s.drop_last())
    } else {
        s
    }
}

/// Calls `str::trim`, which drops the leading and trailing characters that
/// Unicode counts as white space and keeps what lies between them.
#[verifier::external_body]
fn trim_text(s: &str) -> (r: String)
    ensures
        r@ == trimmed(s@),
{
    s.trim().to_string()
}

/// Calls `Write::write_all` with the bytes of `text` and says whether the
/// stream took them.
#[verifier::external_body]
fn write_text<W: Write>(stdout: &mut W, text: &str) -> bool {
    stdout.write_all(text.as_bytes()).is_ok()
}

/// Calls `Write::flush` and says whether the stream was flushed.
#[verifier::external_body]
fn flush_stream<W: Write>(stdout: &mut W) -> bool {
    stdout.flush().is_ok()
}

/// Calls `BufRead::read_line` and hands back the line with its line end, or
/// nothing where reading failed.
#[verifier::external_body]
fn next_line<R: BufRead>(stdin: &mut R) -> Option<String> {
    let mut line = String::new();
    stdin.read_line(&mut line).ok().map(|_| line)
}

/// A line as entered, without the white space around it.
pub fn clean_line(line: &str) -> (r: String)
    ensures
        r@ == trimmed(line@),
{
    trim_text(line)
}

/// Shows the prompt. Says whether the stream took and flushed it.
pub fn write_output<W: Write>(stdout: &mut W) -> (r: bool) {
    write_text(stdout, PROMPT) && flush_stream(stdout)
}

/// Shows the prompt and reads the next command: the line that `stdin` gives,
/// without the white space around it. Nothing where writing or reading fails.
pub fn read_input<R: BufRead, W: Write>(stdout: &mut W, stdin: &mut R) -> (r: Option<String>)
    ensures
        // Whether a line comes, and which, is for the two streams to decide.
        // What comes back is some line without the white space around it.
        r matches Some(command) ==> exists|entered: Seq<char>| command@ == trimmed(entered),
{
    if !write_output(stdout) {
        return None;
    }
    match next_line(stdin) {
        Some(line) => {
            let command = clean_line(line.as_str());
            assert(command@ == trimmed(line@));
            Some(command)
        },
        None => None,
    }
}

} // verus!
