//! The transcript that the demonstrations write their output lines to.

use vstd::prelude::*;
use vstd::string::StringExecFns;
use crate::text::Printable;

verus! {

/// An append-only record of output lines, oldest first.
pub struct Console {
    lines: Vec<String>,
}

impl Console {
    /// The lines written so far, each as its sequence of characters.
    pub closed spec fn view(&self) -> Seq<Seq<char>> {
        self.lines.deep_view()
    }

    /// A transcript with nothing written to it.
    pub fn new() -> (out: Self)
        ensures
            out@ == Seq::<Seq<char>>::empty(),
    {
        Console { lines: Vec::new() }
    }

    /// Writes `line` as the newest line.
    pub fn println(&mut self, line: String)
        ensures
            final(self)@ == old(self)@.push(line@),
    {
        self.lines.push(line);
    }

    /// Writes one line made of the text of `value`.
    pub fn print_value<T: Printable>(&mut self, value: &T)
        ensures
            final(self)@ == old(self)@.push(value.text()),
    {
        let mut line = String::new();
        value.fmt(&mut line);
        self.println(line);
    }

    /// Writes one line made of `label` followed by the text of `value`.
    pub fn print_labelled<T: Printable>(&mut self, label: &str, value: &T)
        ensures
            final(self)@ == old(self)@.push(label@ + value.text()),
    {
        let mut line = String::from_str(label);
        value.fmt(&mut line);
        self.println(line);
    }

    /// Gives up the transcript as the lines written, oldest first.
    pub fn into_lines(self) -> (lines: Vec<String>)
        ensures
            lines.deep_view() == self@,
    {
        self.lines
    }
}

} // verus!
