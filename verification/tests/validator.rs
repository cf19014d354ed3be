use moji::dict::EmojiDict;
use moji::validate::{extract_shortcodes, validate_message};

fn small_dict() -> EmojiDict {
    let mut d = EmojiDict::new();
    d.push_entry("bug".to_string(), "\u{1F41B}".to_string());
    d.push_entry("rocket".to_string(), "\u{1F680}".to_string());
    d.push_entry("sparkles".to_string(), "\u{2728}".to_string());
    d
}

#[test]
fn unknown_shortcode_rejects() {
    let d = small_dict();
    assert_eq!(validate_message("Fix bug :bug: and :not_a_real_emoji:", &d), 1);
}

#[test]
fn known_shortcode_passes() {
    let d = small_dict();
    assert_eq!(validate_message("Release :rocket:", &d), 0);
}

#[test]
fn only_known_shortcodes_pass() {
    let d = small_dict();
    assert_eq!(validate_message(":sparkles: polish :bug: fix :rocket: ship", &d), 0);
}

#[test]
fn one_unknown_among_known_rejects() {
    let d = small_dict();
    assert_eq!(validate_message(":sparkles: :nope: :rocket:", &d), 1);
}

#[test]
fn message_without_shortcodes_passes() {
    let d = small_dict();
    assert_eq!(validate_message("plain message, no emoji", &d), 0);
    assert_eq!(validate_message("", &d), 0);
}

#[test]
fn lone_and_empty_colons_are_no_shortcodes() {
    let d = small_dict();
    assert_eq!(validate_message("a : b ::", &d), 0);
    assert_eq!(validate_message("time 12:30 looks fine", &d), 0);
}

#[test]
fn empty_dictionary_rejects_any_shortcode() {
    let d = EmojiDict::new();
    assert_eq!(validate_message(":bug:", &d), 1);
    assert_eq!(validate_message("no codes here", &d), 0);
}

#[test]
fn extracts_in_order() {
    let codes = extract_shortcodes("Fix :bug: then ship :rocket:");
    assert_eq!(codes, vec!["bug".to_string(), "rocket".to_string()]);
}

#[test]
fn extracts_adjacent_codes() {
    let codes = extract_shortcodes(":a::b:");
    assert_eq!(codes, vec!["a".to_string(), "b".to_string()]);
}

#[test]
fn double_colon_opens_next_code() {
    let codes = extract_shortcodes("::bug::");
    assert_eq!(codes, vec!["bug".to_string()]);
}

#[test]
fn unterminated_code_is_ignored() {
    let codes = extract_shortcodes("ends with :bug");
    assert!(codes.is_empty());
}

#[test]
fn code_chars_beyond_letters() {
    let codes = extract_shortcodes(":+1: and :heavy_check-mark:");
    assert_eq!(codes, vec!["+1".to_string(), "heavy_check-mark".to_string()]);
}

#[test]
fn space_breaks_a_code() {
    let codes = extract_shortcodes(":not a code:");
    assert!(codes.is_empty());
}
