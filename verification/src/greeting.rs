//! The greeting lines of a counter that runs from 2 to 10.

use vstd::prelude::*;
use vstd::string::StringExecFns;

use crate::decimal::{decimal, decimal_text};

verus! {

/// The counter's value in the first line.
pub const FIRST: i32 = 2;

/// The counter's value in the last line.
pub const LAST: i32 = 10;

/// The text that opens every line: `Hello, world: `.
pub open spec fn opening() -> Seq<char> {
    seq!['H', 'e', 'l', 'l', 'o', ',', ' ', 'w', 'o', 'r', 'l', 'd', ':', ' ']
}

/// One line, `Hello, world: {counter} {value}!`, without a line ending.
pub open spec fn line(counter: int, value: Seq<char>) -> Seq<char> {
    opening() + decimal(counter) + seq![' '] + value + seq!['!']
}

/// Renders the line for one value of the counter. `value` is the text of
/// the value that the line carries after the counter.
pub fn line_text(counter: i32, value: &str) -> (s: String)
    ensures
        s@ == line(counter as int, value@),
{
    proof {
        reveal_strlit("Hello, world: ");
        reveal_strlit(" ");
        reveal_strlit("!");
    }
    assert("Hello, world: "@ =~= opening());
    assert(" "@ =~= seq![' ']);
    assert("!"@ =~= seq!['!']);
    let mut s = String::from_str("Hello, world: ");
    let number = decimal_text(counter);
    s.append(number.as_str());
    s.append(" ");
    s.append(value);
    s.append("!");
    s
}

/// Runs the counter from 2 while it is at most 10, and renders one line
/// for each value it takes.
///
/// Returns the lines in the order of the counter, and the counter's final
/// value: nine lines, for the values 2 to 10, and 11.
pub fn main2(value: &str) -> (out: (Vec<String>, i32))
    ensures
        out.1 == 11,
        out.0@.len() == 9,
        forall|i: int| 0 <= i < 9 ==> (#[trigger] out.0@[i])@ == line(2 + i, value@),
{
    let mut lines: Vec<String> = Vec::new();
    let mut a: i32 = FIRST;
    while a <= LAST
        invariant
            FIRST <= a <= LAST + 1,
            lines@.len() == a - FIRST,
            forall|i: int| 0 <= i < lines@.len() ==> (#[trigger] lines@[i])@ == line(FIRST + i, value@),
        decreases LAST + 1 - a,
    {
        lines.push(line_text(a, value));
        a += 1;
    }
    (lines, a)
}

} // verus!
