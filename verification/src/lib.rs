//! Conversion of JSONC-flavored text (JSON with `//` and `/* */` comments and
//! permissive trailing commas) into strictly standard JSON text.
//!
//! The input is treated as a sequence of bytes: every recognized syntax byte is
//! single-byte ASCII, and multi-byte UTF-8 sequences never match any of them,
//! so the passes copy such bytes through untouched. Three string-aware passes
//! run in fixed order: comment stripping, trailing-comma removal, blank-line
//! removal. Each pass is a single forward scan whose output is pinned down by
//! a recursive specification of the same scan.

use vstd::prelude::*;

pub mod laws;
mod remove_blank_lines;
mod remove_trailing_commas;
mod strip_comments;

pub use remove_blank_lines::remove_blank_lines_native;
pub use remove_trailing_commas::remove_trailing_commas_native;
pub use strip_comments::strip_comments_native;

verus! {

// The ASCII bytes that the scans interpret.
pub const SPACE: u8 = 32;
pub const TAB: u8 = 9;
pub const LF: u8 = 10;
pub const CR: u8 = 13;
pub const DOUBLE_QUOTE: u8 = 34;
pub const SINGLE_QUOTE: u8 = 39;
pub const ASTERISK: u8 = 42;
pub const COMMA: u8 = 44;
pub const SLASH: u8 = 47;
pub const CLOSE_BRACKET: u8 = 93;
pub const BACKSLASH: u8 = 92;
pub const CLOSE_BRACE: u8 = 125;

/// The full conversion: comments stripped, then trailing commas removed, then
/// blank lines removed, in that fixed order.
pub open spec fn convert_spec(s: Seq<u8>) -> Seq<u8> {
    remove_blank_lines::remove_blank_lines_spec(
        remove_trailing_commas::remove_trailing_commas_spec(
            strip_comments::strip_comments_spec(s),
        ),
    )
}

/// Converts JSONC to JSON by stripping comments, trimming trailing commas, and
/// removing blank lines, each pass consuming the full output of its
/// predecessor.
pub fn jsonc_to_json_native(input: &[u8]) -> (result: Vec<u8>)
    ensures
        result@ == convert_spec(input@),
{
    let without_comments = strip_comments_native(input);
    let without_commas = remove_trailing_commas_native(without_comments.as_slice());
    remove_blank_lines_native(without_commas.as_slice())
}

/// Converts JSONC to JSON; the host-facing name for `jsonc_to_json_native`.
pub fn jsonc_to_json(input: &[u8]) -> (result: Vec<u8>)
    ensures
        result@ == convert_spec(input@),
{
    jsonc_to_json_native(input)
}

/// Strips comments; the host-facing name for `strip_comments_native`.
pub fn strip_comments(input: &[u8]) -> (result: Vec<u8>)
    ensures
        result@ == strip_comments::strip_comments_spec(input@),
{
    strip_comments_native(input)
}

/// Removes trailing commas; the host-facing name for
/// `remove_trailing_commas_native`.
pub fn remove_trailing_commas(input: &[u8]) -> (result: Vec<u8>)
    ensures
        result@ == remove_trailing_commas::remove_trailing_commas_spec(input@),
{
    remove_trailing_commas_native(input)
}

/// Removes blank lines; the host-facing name for `remove_blank_lines_native`.
pub fn remove_blank_lines(input: &[u8]) -> (result: Vec<u8>)
    ensures
        result@ == remove_blank_lines::remove_blank_lines_spec(input@),
{
    remove_blank_lines_native(input)
}

} // verus!
