use jsonc_to_json::jsonc_to_json_native;

#[test]
fn simple_literals_round_trip() {
    assert_eq!(jsonc_to_json_native("".as_bytes()), "".as_bytes());
    assert_eq!(jsonc_to_json_native("123".as_bytes()), "123".as_bytes());
    assert_eq!(jsonc_to_json_native("null".as_bytes()), "null".as_bytes());
    assert_eq!(jsonc_to_json_native("true".as_bytes()), "true".as_bytes());
    assert_eq!(jsonc_to_json_native("\"string\"".as_bytes()), "\"string\"".as_bytes());
    assert_eq!(
        jsonc_to_json_native("{\"a\":1,\"b\":2}".as_bytes()),
        "{\"a\":1,\"b\":2}".as_bytes()
    );
    assert_eq!(jsonc_to_json_native("[1, null, true]".as_bytes()), "[1, null, true]".as_bytes());
}

#[test]
fn removes_full_line_comments() {
    let source = "// comment\n{\n  // comment\n  \"a\": 1,\n  \"b\": 2\n}\n// tail\n";
    let expected = "{\n  \"a\": 1,\n  \"b\": 2\n}\n";
    assert_eq!(jsonc_to_json_native(source.as_bytes()), expected.as_bytes());

    let block_source = "/* comment */\n{\n  /* inner */\n  \"a\": 1,\n  \"b\": 2\n}\n/* tail */\n";
    assert_eq!(jsonc_to_json_native(block_source.as_bytes()), expected.as_bytes());
}

#[test]
fn removes_inline_comments_and_trailing_commas() {
    let inline = "{\n  \"a\": 1, // a\n  \"b\": 2 /* b */\n}\n";
    let expected_inline = "{\n  \"a\": 1,\n  \"b\": 2\n}\n";
    assert_eq!(jsonc_to_json_native(inline.as_bytes()), expected_inline.as_bytes());

    let trailing = "{\n  \"a\": 1,\n  \"b\": 2,\n}\n";
    assert_eq!(jsonc_to_json_native(trailing.as_bytes()), expected_inline.as_bytes());

    let trailing_array = "[\n  1,\n  2,\n]\n";
    let expected_array = "[\n  1,\n  2\n]\n";
    assert_eq!(jsonc_to_json_native(trailing_array.as_bytes()), expected_array.as_bytes());
}

#[test]
fn strings_survive_comment_sequences() {
    let source = "{\n  \"a\": \"This is not a // comment\",\n  \"b\": \"This is not a /* comment */ either\",\n}";
    let expected = "{\n  \"a\": \"This is not a // comment\",\n  \"b\": \"This is not a /* comment */ either\"\n}";
    assert_eq!(jsonc_to_json_native(source.as_bytes()), expected.as_bytes());
}

#[test]
fn escaped_strings_are_preserved() {
    let source = String::from(
        r#"{
  "path": "C\tmp\file",
  "quote": "He said: \"/* not a comment */\""
}
"#,
    );
    assert_eq!(jsonc_to_json_native(source.as_bytes()), source.as_bytes());
}
