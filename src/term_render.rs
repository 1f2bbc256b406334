//! A render sink that collects lines of text and prints them to the terminal.
use std::io::Write;
use vstd::prelude::*;
use vstd::string::StringExecFns;

use crate::app::Render;

verus! {

/// Relies on std's standard output: writes the text and a line break. A failed
/// write is ignored, as there is nowhere left to report it.
#[verifier::external_body]
fn print_line(text: &str) {
    let _ = writeln!(std::io::stdout(), "{}", text);
}

/// Text output to the terminal, buffered until it is rendered.
pub struct TermRender {
    buf: String,
}

impl View for TermRender {
    type V = Seq<char>;

    closed spec fn view(&self) -> Seq<char> {
        self.buf@
    }
}

/// The buffer once a line has been added to it.
pub open spec fn with_line(buf: Seq<char>, line: Seq<char>) -> Seq<char> {
    "\n"@ + buf + " ->> "@ + line
}

impl TermRender {
    pub fn new() -> (r: Self)
        ensures
            r@ == Seq::<char>::empty(),
    {
        TermRender { buf: String::new() }
    }

    /// The text buffered since the last render.
    pub fn buffered(&self) -> (r: &str)
        ensures
            r@ == self@,
    {
        self.buf.as_str()
    }

    /// Hands out the text buffered since the last render and empties the buffer.
    pub fn take_buffered(&mut self) -> (r: String)
        ensures
            r@ == old(self)@,
            final(self)@ == Seq::<char>::empty(),
    {
        let mut out = String::new();
        std::mem::swap(&mut out, &mut self.buf);
        out
    }

    /// Adds a line to the buffered text.
    pub fn add_line(&mut self, line: &str)
        ensures
            final(self)@ == with_line(old(self)@, line@),
    {
        let mut next = String::from_str("\n");
        next.append(self.buf.as_str());
        next.append(" ->> ");
        next.append(line);
        self.buf = next;
    }
}

impl Render for TermRender {
    open spec fn flushed(&self, after: Self) -> bool {
        after@ == Seq::<char>::empty()
    }

    /// Prints the buffered text and empties the buffer.
    fn render(&mut self) {
        let text = self.take_buffered();
        print_line(text.as_str());
    }
}

} // verus!
