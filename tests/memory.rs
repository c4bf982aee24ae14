use eliar_core::memory::{confession_text, has_extension, latest_matching, FileEntry};
use std::path::Path;

fn entry(name: &str, modified: u128) -> FileEntry {
    FileEntry { name: name.to_string(), modified }
}

#[test]
fn extension_cases() {
    assert!(has_extension("a.elr", "elr"));
    assert!(has_extension("a.b.elr", "elr"));
    assert!(has_extension("..elr", "elr"));
    assert!(!has_extension(".elr", "elr"));
    assert!(!has_extension("a.elr.bak", "elr"));
    assert!(!has_extension("aelr", "elr"));
    assert!(!has_extension("a.txt", "elr"));
    assert!(!has_extension("a.b.c", "b.c"));
    assert!(has_extension("a.", ""));
}

#[test]
fn extension_agrees_with_path() {
    let names = ["a.elr", ".elr", "..elr", "x.y.elr", "elr", "a.elr.txt", "note.txt", "a.", "", "가.elr"];
    for n in names.iter() {
        for ext in ["elr", "txt"].iter() {
            let by_path = Path::new(n).extension().map(|e| e == *ext).unwrap_or(false);
            assert_eq!(has_extension(n, ext), by_path, "{:?} {:?}", n, ext);
        }
    }
}

#[test]
fn latest_matching_picks_newest() {
    let entries = vec![entry("a.elr", 5), entry("b.txt", 9), entry("c.elr", 7), entry("d.elr", 3)];
    assert_eq!(latest_matching(&entries, "elr"), Some(2));
    assert_eq!(latest_matching(&entries, "txt"), Some(1));
    assert_eq!(latest_matching(&entries, "md"), None);
    assert_eq!(latest_matching(&Vec::new(), "elr"), None);
}

#[test]
fn latest_matching_takes_the_later_of_equals() {
    let entries = vec![entry("a.elr", 4), entry("b.elr", 4), entry("c.txt", 4)];
    assert_eq!(latest_matching(&entries, "elr"), Some(1));
    let unread = vec![entry("a.elr", 0), entry("b.elr", 0)];
    assert_eq!(latest_matching(&unread, "elr"), Some(1));
}

#[test]
fn blank_confession_is_none() {
    assert_eq!(confession_text(String::from("")), None);
    assert_eq!(confession_text(String::from(" \n\t")), None);
    assert_eq!(confession_text(String::from(" 고백 \n")), Some(String::from(" 고백 \n")));
}
