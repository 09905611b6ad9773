//! Removal of `//` line comments and `/* */` block comments, string-aware.
//!
//! The scan is an explicit automaton over bytes: outside a string, `//` starts
//! a line comment (discarded up to, but not including, its line terminator) and
//! `/*` starts a block comment (discarded except for the line terminators it
//! spans, which are kept). Inside a string nothing is interpreted; an escape
//! byte passes the following byte through verbatim. When a comment opens, the
//! spaces and tabs already written at the end of the current output line are
//! trimmed, so a removed comment leaves no dangling indentation.

use vstd::prelude::*;

use crate::{ASTERISK, BACKSLASH, CR, DOUBLE_QUOTE, LF, SINGLE_QUOTE, SLASH, SPACE, TAB};

verus! {

/// The state of the byte-level scan: outside any construct, inside a string
/// opened by the recorded delimiter byte, or inside one of the two comment
/// forms.
#[derive(Clone, Copy)]
pub enum ScanState {
    Normal,
    InString(u8),
    LineComment,
    BlockComment,
}

/// Trailing spaces and tabs of `out`, and nothing else, removed.
pub open spec fn trim_inline_ws(out: Seq<u8>) -> Seq<u8>
    decreases out.len(),
{
    if out.len() > 0 && (out.last() == SPACE || out.last() == TAB) {
        trim_inline_ws(out.drop_last())
    } else {
        out
    }
}

/// One step per byte of the comment-stripping automaton, from position `i` in
/// state `st`, with `out` the output accumulated so far.
pub open spec fn strip_scan(s: Seq<u8>, i: int, st: ScanState, out: Seq<u8>) -> Seq<u8>
    decreases s.len() - i,
{
    if i < 0 || i >= s.len() {
        out
    } else {
        let b = s[i];
        match st {
            ScanState::InString(d) => {
                if b == BACKSLASH && i + 1 < s.len() {
                    strip_scan(s, i + 2, st, out.push(b).push(s[i + 1]))
                } else if b == d {
                    strip_scan(s, i + 1, ScanState::Normal, out.push(b))
                } else {
                    strip_scan(s, i + 1, st, out.push(b))
                }
            },
            ScanState::Normal => {
                if b == DOUBLE_QUOTE || b == SINGLE_QUOTE {
                    strip_scan(s, i + 1, ScanState::InString(b), out.push(b))
                } else if b == SLASH && i + 1 < s.len() && s[i + 1] == SLASH {
                    strip_scan(s, i + 2, ScanState::LineComment, trim_inline_ws(out))
                } else if b == SLASH && i + 1 < s.len() && s[i + 1] == ASTERISK {
                    strip_scan(s, i + 2, ScanState::BlockComment, trim_inline_ws(out))
                } else {
                    strip_scan(s, i + 1, st, out.push(b))
                }
            },
            ScanState::LineComment => {
                if b == CR || b == LF {
                    strip_scan(s, i + 1, ScanState::Normal, out.push(b))
                } else {
                    strip_scan(s, i + 1, st, out)
                }
            },
            ScanState::BlockComment => {
                if b == ASTERISK && i + 1 < s.len() && s[i + 1] == SLASH {
                    strip_scan(s, i + 2, ScanState::Normal, out)
                } else if b == CR || b == LF {
                    strip_scan(s, i + 1, st, out.push(b))
                } else {
                    strip_scan(s, i + 1, st, out)
                }
            },
        }
    }
}

/// The text with every non-string comment removed: the full scan from the
/// start, outside any string, with an empty output.
pub open spec fn strip_comments_spec(s: Seq<u8>) -> Seq<u8> {
    strip_scan(s, 0, ScanState::Normal, Seq::<u8>::empty())
}

/// Pops trailing spaces and tabs from `output`, stopping at the first other
/// byte (line terminators included).
fn trim_trailing_inline_whitespace(output: &mut Vec<u8>)
    ensures
        final(output)@ == trim_inline_ws(old(output)@),
{
    while output.len() > 0 && (output[output.len() - 1] == SPACE || output[output.len() - 1] == TAB)
        invariant
            trim_inline_ws(output@) == trim_inline_ws(old(output)@),
        decreases output.len(),
    {
        let ghost before = output@;
        output.pop();
        proof {
            assert(output@ =~= before.drop_last());
        }
    }
}

/// Removes all `//` line comments and `/* */` block comments that stand
/// outside string literals; string contents, escape sequences included, pass
/// through unchanged. A line comment's terminator is kept, a block comment's
/// embedded terminators are kept, and the spaces and tabs that preceded a
/// removed comment on its own line are trimmed. Unterminated constructs
/// consume to end of input; a trailing lone `/` is copied literally.
pub fn strip_comments_native(input: &[u8]) -> (result: Vec<u8>)
    ensures
        result@ == strip_comments_spec(input@),
{
    let mut output: Vec<u8> = Vec::new();
    let mut state = ScanState::Normal;
    let mut i: usize = 0;
    while i < input.len()
        invariant
            i <= input.len(),
            strip_scan(input@, i as int, state, output@) == strip_comments_spec(input@),
        decreases input.len() - i,
    {
        let b = input[i];
        match state {
            ScanState::InString(d) => {
                if b == BACKSLASH && i + 1 < input.len() {
                    output.push(b);
                    output.push(input[i + 1]);
                    i = i + 2;
                } else {
                    output.push(b);
                    if b == d {
                        state = ScanState::Normal;
                    }
                    i = i + 1;
                }
            },
            ScanState::Normal => {
                if b == DOUBLE_QUOTE || b == SINGLE_QUOTE {
                    state = ScanState::InString(b);
                    output.push(b);
                    i = i + 1;
                } else if b == SLASH && i + 1 < input.len() && input[i + 1] == SLASH {
                    trim_trailing_inline_whitespace(&mut output);
                    state = ScanState::LineComment;
                    i = i + 2;
                } else if b == SLASH && i + 1 < input.len() && input[i + 1] == ASTERISK {
                    trim_trailing_inline_whitespace(&mut output);
                    state = ScanState::BlockComment;
                    i = i + 2;
                } else {
                    output.push(b);
                    i = i + 1;
                }
            },
            ScanState::LineComment => {
                if b == CR || b == LF {
                    output.push(b);
                    state = ScanState::Normal;
                }
                i = i + 1;
            },
            ScanState::BlockComment => {
                if b == ASTERISK && i + 1 < input.len() && input[i + 1] == SLASH {
                    state = ScanState::Normal;
                    i = i + 2;
                } else {
                    if b == CR || b == LF {
                        output.push(b);
                    }
                    i = i + 1;
                }
            },
        }
    }
    output
}

} // verus!
