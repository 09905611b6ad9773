//! Laws of the conversion, stated over the scan specifications and proved
//! here: string literals are opaque to the string-aware passes, and a text
//! already free of comments, trailing commas and blank lines is a fixpoint of
//! the conversion, which makes the conversion idempotent on such texts.

use vstd::prelude::*;

use crate::convert_spec;
use crate::remove_blank_lines::{blank_scan, remove_blank_lines_spec};
use crate::remove_trailing_commas::{comma_scan, is_trailing_comma_at, remove_trailing_commas_spec};
use crate::strip_comments::{strip_comments_spec, strip_scan, ScanState};
use crate::{ASTERISK, BACKSLASH, COMMA, CR, DOUBLE_QUOTE, LF, SINGLE_QUOTE, SLASH, SPACE, TAB};

verus! {

/// Valid content for a string literal opened by delimiter `d`: every escape
/// byte is followed by one more byte, which it consumes verbatim, and no
/// unescaped occurrence of `d` appears. Any other byte, comment-like and
/// comma-like bytes included, may appear freely.
pub open spec fn well_escaped(c: Seq<u8>, d: u8) -> bool
    decreases c.len(),
{
    if c.len() == 0 {
        true
    } else if c[0] == BACKSLASH {
        c.len() >= 2 && well_escaped(c.skip(2), d)
    } else {
        c[0] != d && well_escaped(c.skip(1), d)
    }
}

/// String opacity for comment stripping, at any point of the scan: while
/// inside a string whose body is well-escaped content, the scan copies the
/// body through verbatim, whatever text surrounds the string and whatever
/// output was accumulated before it.
pub proof fn lemma_strip_copies_string_body(s: Seq<u8>, i: int, j: int, d: u8, out: Seq<u8>)
    requires
        0 <= i <= j <= s.len(),
        well_escaped(s.subrange(i, j), d),
    ensures
        strip_scan(s, i, ScanState::InString(d), out)
            == strip_scan(s, j, ScanState::InString(d), out + s.subrange(i, j)),
    decreases j - i,
{
    let c = s.subrange(i, j);
    if i == j {
        assert(out + c =~= out);
    } else if s[i] == BACKSLASH {
        assert(c.skip(2) =~= s.subrange(i + 2, j));
        lemma_strip_copies_string_body(s, i + 2, j, d, out.push(s[i]).push(s[i + 1]));
        assert(out.push(s[i]).push(s[i + 1]) + s.subrange(i + 2, j) =~= out + c);
    } else {
        assert(c.skip(1) =~= s.subrange(i + 1, j));
        lemma_strip_copies_string_body(s, i + 1, j, d, out.push(s[i]));
        assert(out.push(s[i]) + s.subrange(i + 1, j) =~= out + c);
    }
}

/// String opacity for trailing-comma removal, at any point of the scan: while
/// inside a string whose body is well-escaped content, the scan copies the
/// body through verbatim, whatever text surrounds the string and whatever
/// output was accumulated before it.
pub proof fn lemma_comma_copies_string_body(s: Seq<u8>, i: int, j: int, d: u8, out: Seq<u8>)
    requires
        0 <= i <= j <= s.len(),
        well_escaped(s.subrange(i, j), d),
    ensures
        comma_scan(s, i, true, d, out) == comma_scan(s, j, true, d, out + s.subrange(i, j)),
    decreases j - i,
{
    let c = s.subrange(i, j);
    if i == j {
        assert(out + c =~= out);
    } else if s[i] == BACKSLASH {
        assert(c.skip(2) =~= s.subrange(i + 2, j));
        lemma_comma_copies_string_body(s, i + 2, j, d, out.push(s[i]).push(s[i + 1]));
        assert(out.push(s[i]).push(s[i + 1]) + s.subrange(i + 2, j) =~= out + c);
    } else {
        assert(c.skip(1) =~= s.subrange(i + 1, j));
        lemma_comma_copies_string_body(s, i + 1, j, d, out.push(s[i]));
        assert(out.push(s[i]) + s.subrange(i + 1, j) =~= out + c);
    }
}

/// String opacity: a text that is exactly one string literal, opened and
/// closed by the same delimiter around well-escaped content, passes through
/// comment stripping and trailing-comma removal unchanged, whatever
/// comment-like or comma-like bytes the content holds, escape sequences
/// included.
pub proof fn string_opacity(d: u8, content: Seq<u8>)
    requires
        d == DOUBLE_QUOTE || d == SINGLE_QUOTE,
        well_escaped(content, d),
    ensures
        strip_comments_spec(seq![d] + content + seq![d]) == seq![d] + content + seq![d],
        remove_trailing_commas_spec(seq![d] + content + seq![d]) == seq![d] + content + seq![d],
{
    let s = seq![d] + content + seq![d];
    let j = 1 + content.len() as int;
    assert(s.len() == j + 1);
    assert(s[0] == d);
    assert(s[j] == d);
    assert(s.subrange(1, j) =~= content);
    assert(well_escaped(s.subrange(1, j), d));
    let opened = seq![d];
    let closed = opened + s.subrange(1, j);
    assert(Seq::<u8>::empty().push(d) =~= opened);
    assert(closed.push(d) =~= s);

    assert(strip_comments_spec(s) == strip_scan(s, 1, ScanState::InString(d), opened));
    lemma_strip_copies_string_body(s, 1, j, d, opened);
    assert(strip_scan(s, j + 1, ScanState::Normal, closed.push(d)) == closed.push(d));
    assert(strip_scan(s, j, ScanState::InString(d), closed) == closed.push(d));
    assert(strip_comments_spec(s) == s);

    assert(remove_trailing_commas_spec(s) == comma_scan(s, 1, true, d, opened));
    lemma_comma_copies_string_body(s, 1, j, d, opened);
    assert(comma_scan(s, j + 1, false, d, closed.push(d)) == closed.push(d));
    assert(comma_scan(s, j, true, d, closed) == closed.push(d));
    assert(remove_trailing_commas_spec(s) == s);
}

/// Whether the scan from position `i`, with string tracking `(in_string,
/// delim)`, meets no comment opener outside a string before end of input.
pub open spec fn comment_free_scan(s: Seq<u8>, i: int, in_string: bool, delim: u8) -> bool
    decreases s.len() - i,
{
    if i < 0 || i >= s.len() {
        true
    } else {
        let b = s[i];
        if in_string {
            if b == BACKSLASH && i + 1 < s.len() {
                comment_free_scan(s, i + 2, true, delim)
            } else if b == delim {
                comment_free_scan(s, i + 1, false, delim)
            } else {
                comment_free_scan(s, i + 1, true, delim)
            }
        } else if b == DOUBLE_QUOTE || b == SINGLE_QUOTE {
            comment_free_scan(s, i + 1, true, b)
        } else if b == SLASH && i + 1 < s.len() && (s[i + 1] == SLASH || s[i + 1] == ASTERISK) {
            false
        } else {
            comment_free_scan(s, i + 1, false, delim)
        }
    }
}

/// The text holds no `//` or `/*` outside a string literal.
pub open spec fn comment_free(s: Seq<u8>) -> bool {
    comment_free_scan(s, 0, false, DOUBLE_QUOTE)
}

/// Whether the scan from position `i`, with string tracking `(in_string,
/// delim)`, meets no trailing comma outside a string before end of input.
pub open spec fn trailing_comma_free_scan(s: Seq<u8>, i: int, in_string: bool, delim: u8) -> bool
    decreases s.len() - i,
{
    if i < 0 || i >= s.len() {
        true
    } else {
        let b = s[i];
        if in_string {
            if b == BACKSLASH && i + 1 < s.len() {
                trailing_comma_free_scan(s, i + 2, true, delim)
            } else if b == delim {
                trailing_comma_free_scan(s, i + 1, false, delim)
            } else {
                trailing_comma_free_scan(s, i + 1, true, delim)
            }
        } else if b == DOUBLE_QUOTE || b == SINGLE_QUOTE {
            trailing_comma_free_scan(s, i + 1, true, b)
        } else if b == COMMA && is_trailing_comma_at(s, i) {
            false
        } else {
            trailing_comma_free_scan(s, i + 1, false, delim)
        }
    }
}

/// The text holds no trailing comma outside a string literal.
pub open spec fn trailing_comma_free(s: Seq<u8>) -> bool {
    trailing_comma_free_scan(s, 0, false, DOUBLE_QUOTE)
}

/// Whether every line from position `i` on has content, given whether the
/// current line has content so far and whether it is still empty.
pub open spec fn blank_line_free_scan(s: Seq<u8>, i: int, has_content: bool, line_empty: bool) -> bool
    decreases s.len() - i,
{
    if i < 0 || i >= s.len() {
        has_content || line_empty
    } else {
        let b = s[i];
        if b == CR || b == LF {
            has_content && blank_line_free_scan(s, if b == CR && i + 1 < s.len() && s[i + 1] == LF { i + 2 } else { i + 1 }, false, true)
        } else {
            blank_line_free_scan(s, i + 1, has_content || !(b == SPACE || b == TAB), false)
        }
    }
}

/// The text holds no line, terminated or final, whose content is empty or all
/// spaces and tabs.
pub open spec fn blank_line_free(s: Seq<u8>) -> bool {
    blank_line_free_scan(s, 0, false, true)
}

/// On a comment-free text the comment-stripping scan copies every byte.
proof fn lemma_comment_free_identity(s: Seq<u8>, i: int, in_string: bool, delim: u8, out: Seq<u8>)
    requires
        0 <= i <= s.len(),
        comment_free_scan(s, i, in_string, delim),
    ensures
        strip_scan(s, i, if in_string { ScanState::InString(delim) } else { ScanState::Normal }, out)
            == out + s.subrange(i, s.len() as int),
    decreases s.len() - i,
{
    let end = s.len() as int;
    if i == end {
        assert(out + s.subrange(i, end) =~= out);
    } else {
        let b = s[i];
        if in_string && b == BACKSLASH && i + 1 < s.len() {
            lemma_comment_free_identity(s, i + 2, true, delim, out.push(b).push(s[i + 1]));
            assert(out.push(b).push(s[i + 1]) + s.subrange(i + 2, end) =~= out + s.subrange(i, end));
        } else if in_string {
            lemma_comment_free_identity(s, i + 1, b != delim, delim, out.push(b));
            assert(out.push(b) + s.subrange(i + 1, end) =~= out + s.subrange(i, end));
        } else if b == DOUBLE_QUOTE || b == SINGLE_QUOTE {
            lemma_comment_free_identity(s, i + 1, true, b, out.push(b));
            assert(out.push(b) + s.subrange(i + 1, end) =~= out + s.subrange(i, end));
        } else {
            lemma_comment_free_identity(s, i + 1, false, delim, out.push(b));
            assert(out.push(b) + s.subrange(i + 1, end) =~= out + s.subrange(i, end));
        }
    }
}

/// On a text free of trailing commas the trailing-comma scan copies every
/// byte.
proof fn lemma_trailing_comma_free_identity(s: Seq<u8>, i: int, in_string: bool, delim: u8, out: Seq<u8>)
    requires
        0 <= i <= s.len(),
        trailing_comma_free_scan(s, i, in_string, delim),
    ensures
        comma_scan(s, i, in_string, delim, out) == out + s.subrange(i, s.len() as int),
    decreases s.len() - i,
{
    let end = s.len() as int;
    if i == end {
        assert(out + s.subrange(i, end) =~= out);
    } else {
        let b = s[i];
        if in_string && b == BACKSLASH && i + 1 < s.len() {
            lemma_trailing_comma_free_identity(s, i + 2, true, delim, out.push(b).push(s[i + 1]));
            assert(out.push(b).push(s[i + 1]) + s.subrange(i + 2, end) =~= out + s.subrange(i, end));
        } else if in_string {
            lemma_trailing_comma_free_identity(s, i + 1, b != delim, delim, out.push(b));
            assert(out.push(b) + s.subrange(i + 1, end) =~= out + s.subrange(i, end));
        } else if b == DOUBLE_QUOTE || b == SINGLE_QUOTE {
            lemma_trailing_comma_free_identity(s, i + 1, true, b, out.push(b));
            assert(out.push(b) + s.subrange(i + 1, end) =~= out + s.subrange(i, end));
        } else {
            lemma_trailing_comma_free_identity(s, i + 1, false, delim, out.push(b));
            assert(out.push(b) + s.subrange(i + 1, end) =~= out + s.subrange(i, end));
        }
    }
}

/// On a text free of blank lines the blank-line scan copies every byte.
proof fn lemma_blank_line_free_identity(s: Seq<u8>, i: int, line: Seq<u8>, has_content: bool, out: Seq<u8>)
    requires
        0 <= i <= s.len(),
        blank_line_free_scan(s, i, has_content, line.len() == 0),
    ensures
        blank_scan(s, i, line, has_content, out) == out + line + s.subrange(i, s.len() as int),
    decreases s.len() - i,
{
    let end = s.len() as int;
    if i == end {
        assert(out + line + s.subrange(i, end) =~= if has_content { out + line } else { out });
    } else {
        let b = s[i];
        if b == CR && i + 1 < s.len() && s[i + 1] == LF {
            lemma_blank_line_free_identity(s, i + 2, Seq::<u8>::empty(), false, out + line + seq![CR, LF]);
            assert(out + line + seq![CR, LF] + Seq::<u8>::empty() + s.subrange(i + 2, end)
                =~= out + line + s.subrange(i, end));
        } else if b == CR || b == LF {
            lemma_blank_line_free_identity(s, i + 1, Seq::<u8>::empty(), false, out + line + seq![b]);
            assert(out + line + seq![b] + Seq::<u8>::empty() + s.subrange(i + 1, end)
                =~= out + line + s.subrange(i, end));
        } else {
            lemma_blank_line_free_identity(s, i + 1, line.push(b), has_content || !(b == SPACE || b == TAB), out);
            assert(out + line.push(b) + s.subrange(i + 1, end) =~= out + line + s.subrange(i, end));
        }
    }
}

/// Fixpoint and idempotence: a text already free of comments, trailing commas
/// and blank lines is returned unchanged by the conversion, so converting such
/// a text twice is the same as converting it once.
pub proof fn convert_fixpoint(s: Seq<u8>)
    requires
        comment_free(s),
        trailing_comma_free(s),
        blank_line_free(s),
    ensures
        convert_spec(s) == s,
        convert_spec(convert_spec(s)) == convert_spec(s),
{
    let end = s.len() as int;
    lemma_comment_free_identity(s, 0, false, DOUBLE_QUOTE, Seq::<u8>::empty());
    assert(Seq::<u8>::empty() + s.subrange(0, end) =~= s);
    assert(strip_comments_spec(s) == s);
    lemma_trailing_comma_free_identity(s, 0, false, DOUBLE_QUOTE, Seq::<u8>::empty());
    assert(remove_trailing_commas_spec(s) == s);
    lemma_blank_line_free_identity(s, 0, Seq::<u8>::empty(), false, Seq::<u8>::empty());
    assert(Seq::<u8>::empty() + Seq::<u8>::empty() + s.subrange(0, end) =~= s);
    assert(remove_blank_lines_spec(s) == s);
}

} // verus!
