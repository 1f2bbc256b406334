//! Presents a counter as a line of text.
use vstd::prelude::*;
use vstd::string::StringExecFns;

use crate::app::Present;
use crate::counter_model::CounterModel;
use crate::term_render::{with_line, TermRender};

verus! {

/// The decimal digits of a natural number.
pub open spec fn digits(n: nat) -> Seq<char>
    decreases n,
{
    let d = seq!['0', '1', '2', '3', '4', '5', '6', '7', '8', '9'];
    if n < 10 {
        seq![d[n as int]]
    } else {
        digits(n / 10) + seq![d[(n % 10) as int]]
    }
}

/// An integer written in decimal, with a leading minus sign when negative.
pub open spec fn decimal(v: int) -> Seq<char> {
    if v < 0 {
        seq!['-'] + digits((-v) as nat)
    } else {
        digits(v as nat)
    }
}

/// The line that shows a counter's value.
pub open spec fn value_text(v: i32) -> Seq<char> {
    "Values is: "@ + decimal(v as int)
}

/// Relies on the `Display` impl of `i32`: the value in decimal, with a leading
/// minus sign when negative.
#[verifier::external_body]
fn decimal_text(v: i32) -> (r: String)
    ensures
        r@ == decimal(v as int),
{
    v.to_string()
}

/// The line that shows a counter's value.
fn value_line(v: i32) -> (r: String)
    ensures
        r@ == value_text(v),
{
    let mut line = String::from_str("Values is: ");
    let digits = decimal_text(v);
    line.append(digits.as_str());
    line
}

/// Shows a counter model as the line "Values is: <value>".
pub struct CounterTextPresent;

impl Present for CounterTextPresent {
    type Mod = CounterModel;

    type Rend = TermRender;

    open spec fn projected(&self, model: &CounterModel, before: TermRender, after: TermRender) -> bool {
        after@ == with_line(before@, value_text(model@))
    }

    fn present(&mut self, model: &CounterModel, render: &mut TermRender) {
        let line = value_line(model.value());
        render.add_line(line.as_str());
    }
}

} // verus!
