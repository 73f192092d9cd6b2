//! The report lines that handling one command produces.

use vstd::prelude::*;
use crate::text::texts;

verus! {

/// How a report line is shown on the console of the scheduler.
#[derive(Clone, Copy, Debug, PartialEq, Eq, Structural)]
pub enum OutputType {
    /// Through the log, at the level of information.
    Info,
    /// On the error stream, as a line.
    Error,
    /// On the output stream, without a line end.
    Print,
    /// On the output stream, as a line.
    Println,
}

/// Collects the report lines of one command in the order they were pushed,
/// each with the way it is to be shown.
pub struct OutputAccumulater {
    body: Vec<String>,
    kinds: Vec<OutputType>,
}

impl OutputAccumulater {
    /// The lines collected so far, oldest first.
    pub closed spec fn lines(&self) -> Seq<String> {
        self.body@
    }

    /// How each of the collected lines is to be shown, oldest first.
    pub closed spec fn shown_as(&self) -> Seq<OutputType> {
        self.kinds@
    }

    /// An accumulator without lines.
    pub fn new() -> (r: Self)
        ensures
            r.lines() == Seq::<String>::empty(),
            r.shown_as() == Seq::<OutputType>::empty(),
    {
        OutputAccumulater { body: Vec::new(), kinds: Vec::new() }
    }

    /// Appends `message` to the collected lines, to be shown in the way that
    /// `kind` names. Showing it is left to the caller.
    pub fn push(&mut self, kind: OutputType, message: String)
        ensures
            final(self).lines() == old(self).lines().push(message),
            final(self).shown_as() == old(self).shown_as().push(kind),
            texts(final(self).lines()) == texts(old(self).lines()).push(message@),
    {
        self.body.push(message);
        self.kinds.push(kind);
        assert(texts(self.lines()) =~= texts(old(self).lines()).push(message@));
    }

    /// The lines collected so far, oldest first.
    pub fn body(&self) -> (r: &Vec<String>)
        ensures
            r@ == self.lines(),
    {
        &self.body
    }

    /// How each of the collected lines is to be shown, oldest first.
    pub fn kinds(&self) -> (r: &Vec<OutputType>)
        ensures
            r@ == self.shown_as(),
    {
        &self.kinds
    }

    /// Hands out the collected lines and leaves the accumulator empty.
    pub fn take_body(&mut self) -> (r: Vec<String>)
        ensures
            r@ == old(self).lines(),
            final(self).lines() == Seq::<String>::empty(),
            final(self).shown_as() == Seq::<OutputType>::empty(),
    {
        let mut body: Vec<String> = Vec::new();
        std::mem::swap(&mut body, &mut self.body);
        self.kinds.clear();
        body
    }
}

/// The report gained one line, to be shown in the given way.
pub open spec fn said(
    before: OutputAccumulater,
    after: OutputAccumulater,
    kind: OutputType,
    line: Seq<char>,
) -> bool {
    &&& texts(after.lines()) == texts(before.lines()).push(line)
    &&& after.shown_as() == before.shown_as().push(kind)
}

/// The report gained a drawing below an empty line, to be shown through
/// the log, and then a line of its own on the output stream.
pub open spec fn drew(
    before: OutputAccumulater,
    after: OutputAccumulater,
    drawing: Seq<char>,
    done: Seq<char>,
) -> bool {
    &&& texts(after.lines()) == texts(before.lines()).push("\n"@ + drawing).push(done)
    &&& after.shown_as() == before.shown_as().push(OutputType::Info).push(OutputType::Println)
}

} // verus!
