use viet_input::controller::{compose, Completion, CompositionResult, Edit, Scheme};
use viet_input::document::Document;

#[test]
fn compose_accepts_the_engines_output() {
    assert_eq!(
        compose(Ok(String::from("\u{e1}"))),
        CompositionResult::Accepted(String::from("\u{e1}"))
    );
}

#[test]
fn compose_rejects_with_the_engines_fallback() {
    assert_eq!(
        compose(Err(String::from("xyzq"))),
        CompositionResult::Rejected(String::from("xyzq"))
    );
}

#[test]
fn compose_keeps_an_empty_text() {
    assert_eq!(compose(Ok(String::new())), CompositionResult::Accepted(String::new()));
    assert_eq!(compose(Err(String::new())), CompositionResult::Rejected(String::new()));
}

#[test]
fn rejection_is_the_same_each_time() {
    let first = compose(Err(String::from("xyzq")));
    let second = compose(Err(String::from("xyzq")));
    assert_eq!(first, second);
    assert_eq!(first.into_text(), "xyzq");
    assert_eq!(second.into_text(), "xyzq");
}

#[test]
fn only_acceptance_suppresses_the_key() {
    assert!(CompositionResult::Accepted(String::from("a")).suppresses());
    assert!(!CompositionResult::Rejected(String::from("a")).suppresses());
}

#[test]
fn into_text_gives_the_text_of_either_variant() {
    assert_eq!(CompositionResult::Accepted(String::from("viet")).into_text(), "viet");
    assert_eq!(CompositionResult::Rejected(String::from("xyzq")).into_text(), "xyzq");
}

#[test]
fn telex_is_the_scheme() {
    assert_eq!(Scheme::Telex, Scheme::Telex);
}

#[test]
fn plain_consonant_is_absorbed() {
    let mut doc = Document::new("vie");
    let done = doc.complete(15, Ok(String::from("viet")));
    assert_eq!(
        done,
        Completion {
            handled: true,
            edit: Some(Edit { start: 0, end: 3, text: String::from("viet") }),
        }
    );
    assert_eq!(doc.get_content(), "viet");
    assert_eq!(doc.get_insert_iter(), Some(4));
}

#[test]
fn tone_mark_replaces_the_vowel() {
    let mut doc = Document::new("a");
    let done = doc.complete(15, Ok(String::from("\u{e1}")));
    assert_eq!(
        done,
        Completion {
            handled: true,
            edit: Some(Edit { start: 0, end: 1, text: String::from("\u{e1}") }),
        }
    );
    assert_eq!(doc.get_content(), "\u{e1}");
    assert_eq!(doc.get_insert_iter(), Some(1));
}

#[test]
fn rejection_writes_the_fallback_and_lets_the_key_through() {
    let mut doc = Document::new("xyz");
    let done = doc.complete(15, Err(String::from("xyzq")));
    assert_eq!(
        done,
        Completion {
            handled: false,
            edit: Some(Edit { start: 0, end: 3, text: String::from("xyzq") }),
        }
    );
    assert_eq!(doc.get_content(), "xyzq");
    assert_eq!(doc.get_insert_iter(), Some(4));
}

#[test]
fn complete_without_caret_changes_nothing() {
    let mut doc = Document::without_caret("xyz");
    let before = doc.clone();
    let done = doc.complete(15, Ok(String::from("abc")));
    assert_eq!(done, Completion { handled: false, edit: None });
    assert_eq!(doc, before);
    let done = doc.complete(15, Err(String::from("abc")));
    assert_eq!(done, Completion { handled: false, edit: None });
    assert_eq!(doc, before);
}

#[test]
fn complete_replaces_only_the_window() {
    let mut doc = Document::new("abcdefghijklmnopqrstuvwxyz");
    let done = doc.complete(15, Ok(String::from("#")));
    assert_eq!(
        done,
        Completion {
            handled: true,
            edit: Some(Edit { start: 11, end: 26, text: String::from("#") }),
        }
    );
    assert_eq!(doc.get_content(), "abcdefghijk#");
    assert_eq!(doc.get_insert_iter(), Some(12));
}

#[test]
fn complete_in_the_middle_keeps_what_follows_the_caret() {
    let mut doc = Document::new("hello viet world");
    assert!(doc.set_caret(10));
    let done = doc.complete(4, Ok(String::from("vi\u{1ec7}t")));
    assert_eq!(
        done,
        Completion {
            handled: true,
            edit: Some(Edit { start: 6, end: 10, text: String::from("vi\u{1ec7}t") }),
        }
    );
    assert_eq!(doc.get_content(), "hello vi\u{1ec7}t world");
    assert_eq!(doc.get_insert_iter(), Some(10));
}

#[test]
fn complete_replaces_the_span_that_extract_gave() {
    let mut doc = Document::new("ti\u{1ebf}ng vie");
    let window = doc.extract(15).unwrap();
    let done = doc.complete(15, Err(String::from("ti\u{1ebf}ng viet")));
    let edit = done.edit.unwrap();
    assert_eq!(edit.start, window.start);
    assert_eq!(edit.end, window.start + window.text.chars().count());
    assert_eq!(doc.get_content(), "ti\u{1ebf}ng viet");
}

#[test]
fn complete_with_an_empty_window_inserts_at_the_caret() {
    let mut doc = Document::new("abc");
    assert!(doc.set_caret(1));
    let done = doc.complete(0, Ok(String::from("X")));
    assert_eq!(
        done,
        Completion {
            handled: true,
            edit: Some(Edit { start: 1, end: 1, text: String::from("X") }),
        }
    );
    assert_eq!(doc.get_content(), "aXbc");
    assert_eq!(doc.get_insert_iter(), Some(2));
}

#[test]
fn text_ending_at_the_caret_is_the_chosen_replacement() {
    for outcome in [Ok(String::from("\u{1ec7}t")), Err(String::from("qq-long-fallback"))] {
        let mut doc = Document::new("0123456789abcdefghijklmnop");
        assert!(doc.set_caret(20));
        let chosen = match &outcome {
            Ok(s) => s.clone(),
            Err(s) => s.clone(),
        };
        let _ = doc.complete(15, outcome);
        let caret = doc.get_insert_iter().unwrap();
        let content: Vec<char> = doc.get_content().chars().collect();
        let count = chosen.chars().count();
        assert_eq!(caret, 5 + count);
        let written: String = content[5..caret].iter().collect();
        assert_eq!(written, chosen);
        let head: String = content[..5].iter().collect();
        assert_eq!(head, "01234");
        let tail: String = content[caret..].iter().collect();
        assert_eq!(tail, "klmnop");
    }
}
