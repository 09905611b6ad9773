//! Removal of blank lines.
//!
//! A line is blank when its content is empty or consists only of spaces and
//! tabs. Blank lines are deleted together with their terminator (`\r`, `\n`,
//! or the two-byte `\r\n`); every other line is emitted byte-for-byte, leading
//! indentation and original terminator included. A final unterminated line is
//! kept exactly when it has content.

use vstd::prelude::*;

use crate::{CR, LF, SPACE, TAB};

verus! {

/// One step per byte of the blank-line automaton, from position `i`, with
/// `line` the bytes of the current line so far, `has_content` whether one of
/// them is neither space nor tab, and `out` the output accumulated so far.
pub open spec fn blank_scan(s: Seq<u8>, i: int, line: Seq<u8>, has_content: bool, out: Seq<u8>) -> Seq<u8>
    decreases s.len() - i,
{
    if i < 0 || i >= s.len() {
        if has_content {
            out + line
        } else {
            out
        }
    } else {
        let b = s[i];
        if b == CR && i + 1 < s.len() && s[i + 1] == LF {
            blank_scan(s, i + 2, Seq::<u8>::empty(), false,
                if has_content { out + line + seq![CR, LF] } else { out })
        } else if b == CR || b == LF {
            blank_scan(s, i + 1, Seq::<u8>::empty(), false,
                if has_content { out + line + seq![b] } else { out })
        } else {
            blank_scan(s, i + 1, line.push(b), has_content || !(b == SPACE || b == TAB), out)
        }
    }
}

/// The text with every blank line deleted: the full scan from the start with
/// an empty line buffer and an empty output.
pub open spec fn remove_blank_lines_spec(s: Seq<u8>) -> Seq<u8> {
    blank_scan(s, 0, Seq::<u8>::empty(), false, Seq::<u8>::empty())
}

/// Deletes every line whose content is empty or consists only of spaces and
/// tabs, together with its terminator; every other line is emitted
/// byte-for-byte with its original terminator. A final unterminated line is
/// kept exactly when it has content.
pub fn remove_blank_lines_native(input: &[u8]) -> (result: Vec<u8>)
    ensures
        result@ == remove_blank_lines_spec(input@),
{
    let mut output: Vec<u8> = Vec::new();
    let mut line_buffer: Vec<u8> = Vec::new();
    let mut has_content = false;
    let mut i: usize = 0;
    while i < input.len()
        invariant
            i <= input.len(),
            blank_scan(input@, i as int, line_buffer@, has_content, output@)
                == remove_blank_lines_spec(input@),
        decreases input.len() - i,
    {
        let b = input[i];
        if b == CR || b == LF {
            let two_byte = b == CR && i + 1 < input.len() && input[i + 1] == LF;
            if has_content {
                let ghost out_before = output@;
                let ghost line_before = line_buffer@;
                output.append(&mut line_buffer);
                output.push(b);
                if two_byte {
                    output.push(LF);
                    proof {
                        assert(output@ =~= out_before + line_before + seq![CR, LF]);
                    }
                } else {
                    proof {
                        assert(output@ =~= out_before + line_before + seq![b]);
                    }
                }
            } else {
                line_buffer.clear();
            }
            has_content = false;
            i = if two_byte { i + 2 } else { i + 1 };
        } else {
            line_buffer.push(b);
            if b != SPACE && b != TAB {
                has_content = true;
            }
            i = i + 1;
        }
    }
    if has_content {
        output.append(&mut line_buffer);
    }
    output
}

} // verus!
