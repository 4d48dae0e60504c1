use palette_core::section::ManifestSection;
use palette_core::text::{key_order, same_text, KeyOrder};

fn entries(s: &ManifestSection) -> Vec<(String, String)> {
    let mut out = Vec::new();
    let mut i = 0;
    while let Some((k, v)) = s.entry_at(i) {
        out.push((k.to_string(), v.to_string()));
        i += 1;
    }
    out
}

#[test]
fn new_section_is_empty() {
    let s = ManifestSection::new();
    assert_eq!(s.len(), 0);
    assert!(s.is_empty());
    assert_eq!(s.get("background"), None);
    assert!(!s.contains_key("background"));
    assert_eq!(s.entry_at(0), None);
}

#[test]
fn insert_keeps_the_keys_in_order() {
    let mut s = ManifestSection::new();
    for key in ["red", "black", "white", "bright_red", "blue", "Red", "", "re", "redd", "\u{e9}"] {
        assert_eq!(s.insert(key.to_string(), format!("v-{key}")), None);
    }
    let keys: Vec<String> = entries(&s).into_iter().map(|(k, _)| k).collect();
    let mut sorted = keys.clone();
    sorted.sort();
    assert_eq!(keys, sorted);
    assert_eq!(
        keys,
        vec!["", "Red", "black", "blue", "bright_red", "re", "red", "redd", "white", "\u{e9}"]
    );
    assert_eq!(s.len(), 10);
    assert_eq!(s.get("re"), Some("v-re"));
    assert_eq!(s.get("redd"), Some("v-redd"));
    assert_eq!(s.get("r"), None);
    assert_eq!(s.entry_at(10), None);
}

#[test]
fn insert_replaces_and_hands_back_the_old_text() {
    let mut s = ManifestSection::new();
    assert_eq!(s.insert("bg".to_string(), "#111".to_string()), None);
    assert_eq!(s.insert("fg".to_string(), "#aaa".to_string()), None);
    assert_eq!(s.insert("bg".to_string(), "#222".to_string()), Some("#111".to_string()));
    assert_eq!(s.len(), 2);
    assert_eq!(s.get("bg"), Some("#222"));
    assert_eq!(s.get("fg"), Some("#aaa"));
    assert_eq!(
        entries(&s),
        vec![("bg".to_string(), "#222".to_string()), ("fg".to_string(), "#aaa".to_string())]
    );
}

#[test]
fn clone_is_an_independent_copy() {
    let mut s = ManifestSection::new();
    s.insert("bg".to_string(), "#111".to_string());
    let mut t = s.clone();
    assert_eq!(entries(&t), entries(&s));
    t.insert("fg".to_string(), "#aaa".to_string());
    t.insert("bg".to_string(), "#222".to_string());
    assert_eq!(entries(&s), vec![("bg".to_string(), "#111".to_string())]);
    assert_eq!(t.len(), 2);
}

#[test]
fn keys_are_ordered_as_strings_are() {
    let samples = ["", "a", "A", "ab", "b", "a_", "a-", "z", "\u{e9}", "\u{10348}", "zz", "a\u{0}"];
    for a in samples {
        for b in samples {
            let expected = match a.cmp(b) {
                std::cmp::Ordering::Less => KeyOrder::Before,
                std::cmp::Ordering::Equal => KeyOrder::Same,
                std::cmp::Ordering::Greater => KeyOrder::After,
            };
            assert_eq!(key_order(a, b), expected, "{a:?} against {b:?}");
            assert_eq!(same_text(a, b), a == b);
        }
    }
}
