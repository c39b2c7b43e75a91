//! What a line of user input holds.
use vstd::prelude::*;
use crate::text::{parse_usize, parsed_usize, trim, trimmed};

verus! {

/// A line read for a text prompt, trimmed; `None` when nothing but
/// whitespace was typed, and the prompt has to be asked again.
pub fn accept_text(raw: &str) -> (r: Option<String>)
    ensures
        trimmed(raw@).len() == 0 ==> r is None,
        trimmed(raw@).len() > 0 ==> (r matches Some(s) && s@ == trimmed(raw@)),
{
    let t = trim(raw);
    if t.as_str().is_empty() {
        None
    } else {
        Some(t)
    }
}

/// What a line read for a number prompt holds.
#[derive(Debug, PartialEq, Eq)]
pub enum NumberInput {
    /// Nothing but whitespace.
    Empty,
    /// Text that is not a `usize`.
    Invalid,
    /// A number.
    Number(usize),
}

/// Reads a line typed at a number prompt: its trimmed text parsed as a
/// `usize`.
pub fn accept_number(raw: &str) -> (r: NumberInput)
    ensures
        trimmed(raw@).len() == 0 ==> r == NumberInput::Empty,
        trimmed(raw@).len() > 0 ==> match parsed_usize(trimmed(raw@)) {
            Some(n) => r == NumberInput::Number(n),
            None => r == NumberInput::Invalid,
        },
{
    let t = trim(raw);
    if t.as_str().is_empty() {
        return NumberInput::Empty;
    }
    match parse_usize(t.as_str()) {
        Some(n) => NumberInput::Number(n),
        None => NumberInput::Invalid,
    }
}

} // verus!
