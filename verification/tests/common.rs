use uslm::common::{content, inner, key, kv, kvs, value, with_quotes, ws};
use uslm::error::{ErrorKind, ParseError};

#[test]
fn test_parse_attribute_key() {
    let mut input = r#"encoding="UTF-8""#;

    let output = key(&mut input).unwrap();

    assert_eq!(input, r#"="UTF-8""#);
    assert_eq!(output, "encoding");
}

#[test]
fn test_parse_attribute_key_name() {
    let mut input = r#"name="UTF-8""#;

    let output = key(&mut input).unwrap();

    assert_eq!(input, r#"="UTF-8""#);
    assert_eq!(output, "name");
}

#[test]
fn test_parse_attribute_value() {
    let mut input = r#""UTF-8""#;

    let output = value(&mut input).unwrap();

    assert_eq!(input, "");
    assert_eq!(output, r#"UTF-8"#);
}

#[test]
fn test_parse_attribute_value_escaped() {
    let mut input = r#"&quot;docTitle&quot;"#;

    let output = value(&mut input).unwrap();

    assert_eq!(input, "");
    assert_eq!(output, r#"&quot;docTitle&quot;"#);
}

#[test]
fn test_parse_attribute_kv() {
    let mut input = r#"encoding="UTF-8""#;

    let output = kv(&mut input).unwrap();

    assert_eq!(input, "");
    assert_eq!(output, ("encoding", r#"UTF-8"#));
}

#[test]
fn common_test_parse_attribute_kvs_single() {
    let mut input = r#"version="1.0""#;

    let output = kvs(&mut input).unwrap();

    assert_eq!(input, "");
    assert_eq!(output, vec![("version", "1.0")]);
}

#[test]
fn test_parse_attribute_kvs_escaped() {
    let mut input = "name=&quot;docTitle&quot;";

    let output = kvs(&mut input).unwrap();

    assert_eq!(input, "");
    assert_eq!(output, vec![("name", "&quot;docTitle&quot;")]);
}

#[test]
fn test_parse_attribute_kvs_multiple() {
    let mut input = r#"version="1.0" encoding="UTF-8""#;

    let output = kvs(&mut input).unwrap();

    assert_eq!(input, "");
    assert_eq!(output, vec![("version", "1.0"), ("encoding", r#"UTF-8"#)]);
}

#[test]
fn test_example_content() {
    let mut input = "110 S 2062 RIS: To amend the Native American Housing Assistance and Self-Determination Act of 1996 to reauthorize that Act, and for other purposes.";

    let output = content(&mut input).unwrap();

    assert_eq!(input, "");
    assert_eq!(output, "110 S 2062 RIS: To amend the Native American Housing Assistance and Self-Determination Act of 1996 to reauthorize that Act, and for other purposes.");
}

#[test]
fn test_bracketed_content() {
    let mut input = "[Report No. 110–238]";

    let output = content(&mut input).unwrap();

    assert_eq!(input, "");
    assert_eq!(output, "[Report No. 110–238]");
}

#[test]
fn test_metadata_kvs() {
    let mut input = r#"role="report" href="/us/srpt/110/238" value="CRPT-110srpt238""#;

    let output = kvs(&mut input).unwrap();

    assert_eq!(input, "");
    assert_eq!(
        output,
        vec![
            ("role", "report"),
            ("href", r#"/us/srpt/110/238"#),
            ("value", r#"CRPT-110srpt238"#)
        ]
    );
}

fn lex_error() -> ParseError {
    ParseError { kind: ErrorKind::LexError, offset: 0, len: 0 }
}

#[test]
fn scanners_fail_without_advancing() {
    let mut input = "<meta>";
    assert_eq!(key(&mut input), Err(lex_error()));
    assert_eq!(input, "<meta>");
    assert_eq!(inner(&mut input), Err(lex_error()));
    assert_eq!(value(&mut input), Err(lex_error()));
    assert_eq!(content(&mut input), Err(lex_error()));
    assert_eq!(kv(&mut input), Err(lex_error()));
    assert_eq!(with_quotes(&mut input), Err(lex_error()));
    assert_eq!(input, "<meta>");

    let mut empty = "";
    assert_eq!(key(&mut empty), Err(lex_error()));
    assert_eq!(content(&mut empty), Err(lex_error()));
    assert_eq!(ws(&mut empty), Ok(""));
}

#[test]
fn key_stops_at_the_first_foreign_character() {
    let mut input = "xml:lang=en";
    assert_eq!(key(&mut input), Ok("xml:lang"));
    assert_eq!(input, "=en");

    let mut input = "a-b.c&d;e/f:g h";
    assert_eq!(inner(&mut input), Ok("a-b.c&d;e/f:g"));
    assert_eq!(input, " h");
}

#[test]
fn value_is_quoted_or_bare() {
    let mut input = r#""abc" rest"#;
    assert_eq!(value(&mut input), Ok("abc"));
    assert_eq!(input, " rest");

    let mut input = "abc rest";
    assert_eq!(value(&mut input), Ok("abc"));
    assert_eq!(input, " rest");

    // A quoted value holds the characters of a bare word only.
    let mut input = r#""Chapter 1""#;
    assert_eq!(value(&mut input), Err(lex_error()));
    assert_eq!(input, r#""Chapter 1""#);

    let mut input = r#""abc"#;
    assert_eq!(value(&mut input), Err(lex_error()));
    assert_eq!(input, r#""abc"#);

    let mut input = r#""""#;
    assert_eq!(value(&mut input), Err(lex_error()));

    let mut input = "abc\"";
    assert_eq!(with_quotes(&mut input), Err(lex_error()));
    let mut input = "\"abc\"x";
    assert_eq!(with_quotes(&mut input), Ok("abc"));
    assert_eq!(input, "x");
}

#[test]
fn kv_needs_key_equals_value() {
    let mut input = "a=b";
    assert_eq!(kv(&mut input), Ok(("a", "b")));
    assert_eq!(input, "");

    let mut input = "a=";
    assert_eq!(kv(&mut input), Err(lex_error()));
    assert_eq!(input, "a=");

    let mut input = "a b";
    assert_eq!(kv(&mut input), Err(lex_error()));
    assert_eq!(input, "a b");
}

#[test]
fn kvs_reads_the_longest_sequence_of_pairs() {
    // An optional leading space is consumed.
    let mut input = " a=b c=d>";
    assert_eq!(kvs(&mut input), Ok(vec![("a", "b"), ("c", "d")]));
    assert_eq!(input, ">");

    // A space that no pair follows is left.
    let mut input = "a=b >";
    assert_eq!(kvs(&mut input), Ok(vec![("a", "b")]));
    assert_eq!(input, " >");

    // Two spaces do not separate pairs.
    let mut input = "a=b  c=d";
    assert_eq!(kvs(&mut input), Ok(vec![("a", "b")]));
    assert_eq!(input, "  c=d");

    // No pair at all.
    let mut input = ">";
    assert_eq!(kvs(&mut input), Ok(vec![]));
    assert_eq!(input, ">");
    let mut input = " >";
    assert_eq!(kvs(&mut input), Ok(vec![]));
    assert_eq!(input, ">");

    // A pair that breaks off is not part of the sequence.
    let mut input = r#"a=b c="x y""#;
    assert_eq!(kvs(&mut input), Ok(vec![("a", "b")]));
    assert_eq!(input, r#" c="x y""#);
}

#[test]
fn kvs_keeps_order_and_repeated_keys() {
    let mut input = "b=2 a=1 b=3 a=1";
    assert_eq!(
        kvs(&mut input),
        Ok(vec![("b", "2"), ("a", "1"), ("b", "3"), ("a", "1")])
    );
    assert_eq!(input, "");
}

#[test]
fn content_takes_the_whitelist_and_stops_before_a_tag() {
    let mut input = "a-b=c+d.e,f&g;h:i/j[k]\n\r\t l–m</x>";
    assert_eq!(content(&mut input), Ok("a-b=c+d.e,f&g;h:i/j[k]\n\r\t l–m"));
    assert_eq!(input, "</x>");

    let mut input = "&quot;name&quot;<";
    assert_eq!(content(&mut input), Ok("&quot;name&quot;"));
    assert_eq!(input, "<");

    // Characters outside the whitelist end the run.
    let mut input = "abc(def)";
    assert_eq!(content(&mut input), Ok("abc"));
    assert_eq!(input, "(def)");

    // Only the en dash is taken of the characters beyond ASCII.
    let mut input = "a—b";
    assert_eq!(content(&mut input), Ok("a"));
    assert_eq!(input, "—b");
    let mut input = "é";
    assert_eq!(content(&mut input), Err(lex_error()));
    assert_eq!(input, "é");
    let mut input = "–";
    assert_eq!(content(&mut input), Ok("–"));
    assert_eq!(input, "");
}

#[test]
fn ws_takes_blanks_only() {
    let mut input = " \t\r\n x ";
    assert_eq!(ws(&mut input), Ok(" \t\r\n "));
    assert_eq!(input, "x ");
    assert_eq!(ws(&mut input), Ok(""));
    assert_eq!(input, "x ");
}
