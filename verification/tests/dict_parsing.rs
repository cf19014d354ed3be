use moji::parse::parse_dict;

#[test]
fn parses_empty_object() {
    let d = parse_dict("{}").expect("empty object should parse");
    assert_eq!(d.len(), 0);
    let d = parse_dict("  { }  ").expect("whitespace around braces is fine");
    assert_eq!(d.len(), 0);
}

#[test]
fn parses_single_pair() {
    let d = parse_dict("{\"bug\": \"\u{1F41B}\"}").expect("one pair should parse");
    assert_eq!(d.len(), 1);
    assert!(d.contains_code(&"bug".to_string()));
    let glyph = d.lookup(&"bug".to_string()).expect("bug should be found");
    assert_eq!(glyph, "\u{1F41B}");
}

#[test]
fn parses_many_pairs_with_whitespace() {
    let src = "{\n  \"bug\": \"B\",\n  \"rocket\": \"R\",\n  \"sparkles\": \"S\"\n}\n";
    let d = parse_dict(src).expect("three pairs should parse");
    assert_eq!(d.len(), 3);
    assert!(d.contains_code(&"bug".to_string()));
    assert!(d.contains_code(&"rocket".to_string()));
    assert!(d.contains_code(&"sparkles".to_string()));
    assert!(!d.contains_code(&"fire".to_string()));
    assert_eq!(d.lookup(&"rocket".to_string()).expect("rocket is present"), "R");
}

#[test]
fn first_entry_wins_on_equal_keys() {
    let d = parse_dict("{\"x\": \"first\", \"x\": \"second\"}").expect("should parse");
    assert_eq!(d.len(), 2);
    assert_eq!(d.lookup(&"x".to_string()).expect("x is present"), "first");
}

#[test]
fn lookup_misses_absent_code() {
    let d = parse_dict("{\"bug\": \"B\"}").expect("should parse");
    assert!(d.lookup(&"rocket".to_string()).is_none());
}

#[test]
fn rejects_missing_braces() {
    assert!(parse_dict("").is_none());
    assert!(parse_dict("\"bug\": \"B\"").is_none());
    assert!(parse_dict("{\"bug\": \"B\"").is_none());
    assert!(parse_dict("\"bug\": \"B\"}").is_none());
}

#[test]
fn rejects_trailing_garbage() {
    assert!(parse_dict("{} x").is_none());
    assert!(parse_dict("{\"bug\": \"B\"} {").is_none());
}

#[test]
fn rejects_malformed_pairs() {
    assert!(parse_dict("{\"bug\"}").is_none());
    assert!(parse_dict("{\"bug\": }").is_none());
    assert!(parse_dict("{\"bug\" \"B\"}").is_none());
    assert!(parse_dict("{\"bug\": \"B\",}").is_none());
    assert!(parse_dict("{, \"bug\": \"B\"}").is_none());
    assert!(parse_dict("{\"bug\": \"B\" \"rocket\": \"R\"}").is_none());
}

#[test]
fn rejects_escapes_in_strings() {
    assert!(parse_dict("{\"bu\\\"g\": \"B\"}").is_none());
    assert!(parse_dict("{\"bug\": \"\\u0041\"}").is_none());
}

#[test]
fn rejects_unterminated_string() {
    assert!(parse_dict("{\"bug: \"B\"}").is_none());
    assert!(parse_dict("{\"bug\": \"B}").is_none());
}

#[test]
fn parses_empty_key_and_value() {
    let d = parse_dict("{\"\": \"\"}").expect("empty strings are plain strings");
    assert_eq!(d.len(), 1);
    assert!(d.contains_code(&"".to_string()));
}
