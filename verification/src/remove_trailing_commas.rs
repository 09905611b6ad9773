//! Removal of trailing commas, string-aware.
//!
//! A comma is trailing when the next byte after it that is not a space, tab,
//! line feed or carriage return is a closing `}` or `]`, or when no such byte
//! exists before end of input. Trailing commas outside string literals are
//! dropped; every other byte, the skipped whitespace included, is copied
//! through unchanged. String tracking is the same as in comment stripping.

use vstd::prelude::*;

use crate::{BACKSLASH, CLOSE_BRACE, CLOSE_BRACKET, COMMA, CR, DOUBLE_QUOTE, LF, SINGLE_QUOTE,
    SPACE, TAB};

verus! {

pub open spec fn is_skippable_ws(b: u8) -> bool {
    b == SPACE || b == TAB || b == LF || b == CR
}

/// The position of the first byte at or after `j` that is not skippable
/// whitespace, or `s.len()` when every remaining byte is.
pub open spec fn next_non_ws(s: Seq<u8>, j: int) -> int
    decreases s.len() - j,
{
    if j < 0 || j >= s.len() {
        s.len() as int
    } else if is_skippable_ws(s[j]) {
        next_non_ws(s, j + 1)
    } else {
        j
    }
}

/// Whether the comma at position `i` is trailing: the next non-whitespace byte
/// after it is a closing brace or bracket, or the input ends first.
pub open spec fn is_trailing_comma_at(s: Seq<u8>, i: int) -> bool {
    let k = next_non_ws(s, i + 1);
    k >= s.len() || s[k] == CLOSE_BRACE || s[k] == CLOSE_BRACKET
}

/// One step per byte of the trailing-comma automaton, from position `i`, with
/// string tracking `(in_string, delim)` and `out` the output accumulated so
/// far.
pub open spec fn comma_scan(s: Seq<u8>, i: int, in_string: bool, delim: u8, out: Seq<u8>) -> Seq<u8>
    decreases s.len() - i,
{
    if i < 0 || i >= s.len() {
        out
    } else {
        let b = s[i];
        if in_string {
            if b == BACKSLASH && i + 1 < s.len() {
                comma_scan(s, i + 2, true, delim, out.push(b).push(s[i + 1]))
            } else if b == delim {
                comma_scan(s, i + 1, false, delim, out.push(b))
            } else {
                comma_scan(s, i + 1, true, delim, out.push(b))
            }
        } else if b == DOUBLE_QUOTE || b == SINGLE_QUOTE {
            comma_scan(s, i + 1, true, b, out.push(b))
        } else if b == COMMA && is_trailing_comma_at(s, i) {
            comma_scan(s, i + 1, false, delim, out)
        } else {
            comma_scan(s, i + 1, false, delim, out.push(b))
        }
    }
}

/// The text with every trailing comma outside a string removed: the full scan
/// from the start, outside any string, with an empty output.
pub open spec fn remove_trailing_commas_spec(s: Seq<u8>) -> Seq<u8> {
    comma_scan(s, 0, false, DOUBLE_QUOTE, Seq::<u8>::empty())
}

/// The index of the first byte at or after `start` that is not a space, tab,
/// line feed or carriage return, or `None` when the input ends first.
fn next_non_whitespace_index(bytes: &[u8], start: usize) -> (result: Option<usize>)
    ensures
        match result {
            Some(idx) => start <= idx < bytes@.len() && idx == next_non_ws(bytes@, start as int),
            None => next_non_ws(bytes@, start as int) == bytes@.len(),
        },
{
    let mut idx = start;
    while idx < bytes.len()
        invariant
            start <= idx,
            next_non_ws(bytes@, idx as int) == next_non_ws(bytes@, start as int),
        decreases bytes.len() - idx,
    {
        let ch = bytes[idx];
        if ch != SPACE && ch != TAB && ch != LF && ch != CR {
            return Some(idx);
        }
        idx = idx + 1;
    }
    None
}

/// Removes every comma that stands outside a string literal and is followed,
/// skipping only spaces, tabs, line feeds and carriage returns, by a closing
/// `}` or `]` or by end of input. All other bytes, commas inside strings and
/// the whitespace between a dropped comma and its bracket included, are copied
/// through unchanged.
pub fn remove_trailing_commas_native(input: &[u8]) -> (result: Vec<u8>)
    ensures
        result@ == remove_trailing_commas_spec(input@),
{
    let mut output: Vec<u8> = Vec::new();
    let mut in_string = false;
    let mut string_delimiter = DOUBLE_QUOTE;
    let mut i: usize = 0;
    while i < input.len()
        invariant
            i <= input.len(),
            comma_scan(input@, i as int, in_string, string_delimiter, output@)
                == remove_trailing_commas_spec(input@),
        decreases input.len() - i,
    {
        let b = input[i];
        if in_string {
            if b == BACKSLASH && i + 1 < input.len() {
                output.push(b);
                output.push(input[i + 1]);
                i = i + 2;
            } else {
                output.push(b);
                if b == string_delimiter {
                    in_string = false;
                }
                i = i + 1;
            }
        } else if b == DOUBLE_QUOTE || b == SINGLE_QUOTE {
            in_string = true;
            string_delimiter = b;
            output.push(b);
            i = i + 1;
        } else if b == COMMA {
            let dropped = match next_non_whitespace_index(input, i + 1) {
                Some(idx) => input[idx] == CLOSE_BRACE || input[idx] == CLOSE_BRACKET,
                None => true,
            };
            if !dropped {
                output.push(b);
            }
            i = i + 1;
        } else {
            output.push(b);
            i = i + 1;
        }
    }
    output
}

} // verus!
