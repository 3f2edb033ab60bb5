use goxviet_core::domain::InputMethodId;
use goxviet_core::shortcut::{Shortcut, ShortcutRepo, ShortcutTable};


#[test]
fn test_add_and_lookup() {
    let mut repo = ShortcutRepo::new();
    assert!(repo.add("tks", "thanks"));
    
    let result = repo.lookup("tks");
    assert!(result.is_some());
    let (matched, shortcut) = result.unwrap();
    assert_eq!(matched, "tks");
    assert_eq!(shortcut.replacement, "thanks");
}

#[test]
fn test_try_match_for_method_with_telex() {
    let mut repo = ShortcutRepo::new();
    let shortcut = Shortcut::telex("tks", "thanks");
    assert!(repo.add_shortcut(shortcut));
    
    // Should match with Telex
    let result = repo.try_match_for_method("tks", Some(' '), true, InputMethodId::Telex);
    assert!(result.is_some());
    
    // Should not match with VNI (Telex-specific shortcut)
    let result = repo.try_match_for_method("tks", Some(' '), true, InputMethodId::Vni);
    assert!(result.is_none());
}

#[test]
fn test_remove_and_clear() {
    let mut repo = ShortcutRepo::new();
    repo.add("tks", "thanks");
    repo.add("brb", "be right back");
    
    assert_eq!(repo.len(), 2);
    
    let removed = repo.remove("tks");
    assert!(removed.is_some());
    assert_eq!(repo.len(), 1);
    
    repo.clear();
    assert!(repo.is_empty());
    assert_eq!(repo.len(), 0);
}

#[test]
fn shortcut_match_types_expansion_and_key() {
    let mut repo = ShortcutRepo::new();
    assert!(repo.add("brb", "be right back"));
    let m = repo.try_match("brb", Some(' '), true).unwrap();
    assert_eq!(m.backspace_count, 3);
    assert_eq!(m.output, "be right back ");
    assert!(repo.try_match("brb", Some(' '), false).is_none());
    let m = repo.try_match("brb", None, true).unwrap();
    assert_eq!(m.output, "be right back");
    assert!(repo.try_match("br", Some(' '), true).is_none());
}

#[test]
fn shortcut_add_replaces_and_refuses_empty() {
    let mut repo = ShortcutRepo::new();
    assert!(repo.add("hn", "Hà Nội"));
    assert!(repo.add("hn", "hôm nay"));
    assert_eq!(repo.len(), 1);
    assert_eq!(repo.lookup("hn").unwrap().1.replacement, "hôm nay");
    assert!(!repo.add("", "x"));
    assert_eq!(repo.len(), 1);
    assert!(repo.remove("zz").is_none());
}

#[test]
fn shortcut_methods() {
    let mut repo = ShortcutRepo::new();
    assert!(repo.add_shortcut(Shortcut::vni("ko", "không")));
    assert!(repo.lookup_for_method("ko", InputMethodId::Vni).is_some());
    assert!(repo.lookup_for_method("ko", InputMethodId::Telex).is_none());
    assert!(repo.lookup_for_method("ko", InputMethodId::Plain).is_some());
    assert!(repo.lookup("ko").is_some());
}

#[test]
fn shortcut_defaults() {
    let repo = ShortcutRepo::with_defaults();
    assert_eq!(repo.len(), 4);
    assert_eq!(repo.lookup("vn").unwrap().1.replacement, "Việt Nam");
    let table = ShortcutTable::new();
    assert!(table.is_empty());
}

#[test]
fn shortcut_json_write_and_read_back() {
    let mut repo = ShortcutRepo::new();
    repo.add("tks", "thanks");
    repo.add_shortcut(Shortcut::telex("q\"t", "a\\b\nc"));
    let json = repo.to_json();
    assert_eq!(
        json,
        "[{\"trigger\":\"tks\",\"replacement\":\"thanks\",\"input_method\":\"all\"},{\"trigger\":\"q\\\"t\",\"replacement\":\"a\\\\b\\nc\",\"input_method\":\"telex\"}]"
    );
    let mut loaded = ShortcutRepo::new();
    assert_eq!(loaded.from_json(&json), Ok(2));
    assert_eq!(loaded.len(), 2);
    assert_eq!(loaded.lookup("q\"t").unwrap().1.replacement, "a\\b\nc");
    assert_eq!(loaded.to_json(), json);
}

#[test]
fn shortcut_json_empty_and_invalid() {
    let mut repo = ShortcutRepo::new();
    assert_eq!(repo.to_json(), "[]");
    assert_eq!(repo.from_json("[]"), Ok(0));
    assert!(repo.from_json("").is_err());
    assert!(repo.from_json("[{\"trigger\":\"a\"}]").is_err());
    assert!(repo.from_json("[{\"trigger\":\"a\",\"replacement\":\"b\",\"input_method\":\"x\"}]").is_err());
    assert!(repo.from_json("[{\"trigger\":\"a\",\"replacement\":\"b\",\"input_method\":\"vni\"},]").is_err());
    assert!(repo.is_empty());
    assert_eq!(
        repo.from_json("[{\"trigger\":\"a\",\"replacement\":\"b\\/c\",\"input_method\":\"vni\"}]"),
        Ok(1)
    );
    assert_eq!(repo.lookup("a").unwrap().1.replacement, "b/c");
}
