use moji::query::{KeyEvent, QueryBuffer};
use moji::search::search;

fn typed(s: &str) -> Vec<char> {
    let mut q = QueryBuffer::new();
    for c in s.chars() {
        assert!(!q.apply_key(KeyEvent::Character(c)));
    }
    q.chars
}

#[test]
fn buffer_accumulates_characters() {
    let q = typed("bug");
    assert_eq!(q, vec!['b', 'u', 'g']);
}

#[test]
fn backspace_drops_last_character() {
    let mut q = QueryBuffer::new();
    q.apply_key(KeyEvent::Character('b'));
    q.apply_key(KeyEvent::Character('u'));
    q.apply_key(KeyEvent::Backspace);
    assert_eq!(q.chars, vec!['b']);
}

#[test]
fn backspace_on_empty_buffer_is_harmless() {
    let mut q = QueryBuffer::new();
    assert!(!q.apply_key(KeyEvent::Backspace));
    assert!(q.chars.is_empty());
}

#[test]
fn enter_finishes_without_changing_the_buffer() {
    let mut q = QueryBuffer::new();
    q.apply_key(KeyEvent::Character('a'));
    assert!(q.apply_key(KeyEvent::Enter));
    assert_eq!(q.chars, vec!['a']);
}

#[test]
fn other_keys_are_ignored() {
    let mut q = QueryBuffer::new();
    q.apply_key(KeyEvent::Character('a'));
    assert!(!q.apply_key(KeyEvent::Other));
    assert_eq!(q.chars, vec!['a']);
}

#[test]
fn search_tags_the_matched_spans() {
    let q = typed("something");
    let r = search(&q, "some search thing");
    assert_eq!(r, "<matched>some</matched> search <matched>thing</matched>");
}

#[test]
fn search_misses_cleanly() {
    let q = typed("abc");
    assert_eq!(search(&q, "def"), "");
}

#[test]
fn empty_query_finds_nothing() {
    let q = QueryBuffer::new();
    assert_eq!(search(&q.chars, "anything"), "");
}

#[test]
fn search_over_dictionary_text() {
    let dict_text = "{\"bug\": \"B\", \"rocket\": \"R\"}";
    let q = typed("rocket");
    let r = search(&q, dict_text);
    assert!(r.contains("<matched>"));
    assert_ne!(r, dict_text);
}
