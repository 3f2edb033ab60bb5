use goxviet_core::dictionary::{Dictionary, DictionaryRepo};
use goxviet_core::keys;
use goxviet_core::text::CharSequence;

fn ks(s: &str) -> Vec<u16> {
    s.chars().map(|c| keys::letter_key(c).unwrap()).collect()
}


#[test]
fn test_is_english_are() {
    let keys = [keys::A, keys::R, keys::E];
    assert!(Dictionary::is_english(&keys));
}

#[test]
fn test_is_english_off() {
let keys = [keys::O, keys::F, keys::F];
println!("Keys: {:?}", keys);
assert!(Dictionary::is_english(&keys));
}

#[test]
fn dictionary_needs_two_keys_and_whole_words() {
    assert!(!Dictionary::is_english(&ks("a")));
    assert!(Dictionary::is_english(&ks("the")));
    assert!(!Dictionary::is_english(&ks("thee")));
    assert!(Dictionary::is_english(&ks("hex")));
    assert!(!Dictionary::is_english(&ks("viet")));
}

#[test]
fn dictionary_programming_prefixes() {
    assert!(Dictionary::is_english(&ks("function")));
    assert!(Dictionary::is_english(&ks("funcs")));
    assert!(Dictionary::is_english(&ks("printer")));
    assert!(!Dictionary::is_english(&ks("fun")));
    let raw: Vec<(u16, bool)> = ks("Json").into_iter().map(|k| (k, true)).collect();
    assert!(Dictionary::is_common_english_word(&raw));
    assert!(!Dictionary::is_common_english_word(&[(keys::A, false)]));
    let with_digit = [keys::T, keys::E, keys::N1, keys::T];
    assert!(!Dictionary::is_english(&with_digit));
}

#[test]
fn dictionary_repo_recognises_nothing() {
    let repo = DictionaryRepo::new();
    assert!(!repo.is_english_keys(&ks("the")));
    assert!(!repo.is_common_english_word(&[(keys::T, false), (keys::O, false)]));
    assert!(!repo.is_english_text(&CharSequence::from("hello")));
}
