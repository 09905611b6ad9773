use jsonc_to_json::{
    jsonc_to_json, jsonc_to_json_native, remove_blank_lines, remove_blank_lines_native,
    remove_trailing_commas, remove_trailing_commas_native, strip_comments, strip_comments_native,
};

#[test]
fn string_opacity_example() {
    let source = "{\"a\":\"This is not // a comment\"}";
    assert_eq!(strip_comments_native(source.as_bytes()), source.as_bytes());
    assert_eq!(remove_trailing_commas_native(source.as_bytes()), source.as_bytes());
}

#[test]
fn escaped_quote_does_not_end_string() {
    let source = "{\"text\":\"Quote: \\\"//\\\"\"}";
    assert_eq!(strip_comments_native(source.as_bytes()), source.as_bytes());
}

#[test]
fn empty_input_stays_empty() {
    assert_eq!(jsonc_to_json_native("".as_bytes()), "".as_bytes());
    assert_eq!(strip_comments_native("".as_bytes()), "".as_bytes());
    assert_eq!(remove_trailing_commas_native("".as_bytes()), "".as_bytes());
    assert_eq!(remove_blank_lines_native("".as_bytes()), "".as_bytes());
}

#[test]
fn conversion_is_idempotent_on_clean_text() {
    let clean = "{\n  \"a\": 1,\n  \"b\": 2\n}\n";
    let once = jsonc_to_json_native(clean.as_bytes());
    assert_eq!(once, clean.as_bytes());
    let twice = jsonc_to_json_native(&once);
    assert_eq!(twice, once);
}

#[test]
fn single_quoted_strings_are_opaque() {
    let source = "{'a':'// not a comment'}";
    assert_eq!(strip_comments_native(source.as_bytes()), source.as_bytes());

    let commas = "{'a':',','b':']',}";
    let expected = "{'a':',','b':']'}";
    assert_eq!(remove_trailing_commas_native(commas.as_bytes()), expected.as_bytes());
}

#[test]
fn line_comment_keeps_crlf_terminator() {
    let source = "a // c\r\nb";
    assert_eq!(strip_comments_native(source.as_bytes()), "a\r\nb".as_bytes());
}

#[test]
fn lone_carriage_return_is_a_terminator() {
    assert_eq!(strip_comments_native("a//c\rb".as_bytes()), "a\rb".as_bytes());
    assert_eq!(remove_blank_lines_native("a\r\rb".as_bytes()), "a\rb".as_bytes());
    assert_eq!(remove_blank_lines_native("a\r\n\r\nb".as_bytes()), "a\r\nb".as_bytes());
}

#[test]
fn comment_without_terminator_consumes_to_end() {
    assert_eq!(strip_comments_native("x // c".as_bytes()), "x".as_bytes());
    assert_eq!(strip_comments_native("x /* c".as_bytes()), "x".as_bytes());
}

#[test]
fn unterminated_block_comment_keeps_its_newlines() {
    assert_eq!(strip_comments_native("a/* x\n y".as_bytes()), "a\n".as_bytes());
}

#[test]
fn trailing_lone_slash_is_copied() {
    assert_eq!(strip_comments_native("a/".as_bytes()), "a/".as_bytes());
    assert_eq!(strip_comments_native("/x".as_bytes()), "/x".as_bytes());
}

#[test]
fn unterminated_string_copies_the_rest() {
    assert_eq!(strip_comments_native("\"a//b".as_bytes()), "\"a//b".as_bytes());
    assert_eq!(remove_trailing_commas_native("\"a,]".as_bytes()), "\"a,]".as_bytes());
    assert_eq!(strip_comments_native("\"ab\\".as_bytes()), "\"ab\\".as_bytes());
}

#[test]
fn comma_before_end_of_input_is_dropped() {
    assert_eq!(remove_trailing_commas_native("a,".as_bytes()), "a".as_bytes());
    assert_eq!(remove_trailing_commas_native("a, \n".as_bytes()), "a \n".as_bytes());
}

#[test]
fn whitespace_between_comma_and_bracket_is_kept() {
    assert_eq!(remove_trailing_commas_native("[1 , ]".as_bytes()), "[1  ]".as_bytes());
}

#[test]
fn final_line_kept_only_with_content() {
    assert_eq!(remove_blank_lines_native("a\n   ".as_bytes()), "a\n".as_bytes());
    assert_eq!(remove_blank_lines_native("   ".as_bytes()), "".as_bytes());
    assert_eq!(remove_blank_lines_native("a\n".as_bytes()), "a\n".as_bytes());
    assert_eq!(remove_blank_lines_native("\n\n".as_bytes()), "".as_bytes());
}

#[test]
fn comment_trim_stops_at_line_terminator() {
    assert_eq!(strip_comments_native("{\n  // c\n}".as_bytes()), "{\n\n}".as_bytes());
    assert_eq!(strip_comments_native("a\t// c\n".as_bytes()), "a\n".as_bytes());
}

#[test]
fn host_facing_names_match_the_native_functions() {
    let source = "{\n  'a': 1, // note\n\n  'b': [2,],\n}\n";
    assert_eq!(jsonc_to_json(source.as_bytes()), jsonc_to_json_native(source.as_bytes()));
    assert_eq!(strip_comments(source.as_bytes()), strip_comments_native(source.as_bytes()));
    assert_eq!(
        remove_trailing_commas(source.as_bytes()),
        remove_trailing_commas_native(source.as_bytes())
    );
    assert_eq!(
        remove_blank_lines(source.as_bytes()),
        remove_blank_lines_native(source.as_bytes())
    );
}
