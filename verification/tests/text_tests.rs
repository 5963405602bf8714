use identity_access::text::{find_last, from_chars, same_text, to_chars};

#[test]
fn characters_of_a_text() {
    assert_eq!(to_chars(""), Vec::<char>::new());
    assert_eq!(to_chars("a\u{00e9}\u{4e2d}"), vec!['a', '\u{00e9}', '\u{4e2d}']);
}

#[test]
fn text_of_a_range_of_characters() {
    let chars = to_chars("h\u{00e9}llo.world");
    assert_eq!(from_chars(&chars, 0, 5), "h\u{00e9}llo");
    assert_eq!(from_chars(&chars, 6, 11), "world");
    assert_eq!(from_chars(&chars, 3, 3), "");
    assert_eq!(from_chars(&chars, 0, chars.len()), "h\u{00e9}llo.world");
}

#[test]
fn last_occurrence_before_an_end() {
    let chars = to_chars("a.b.c");
    assert_eq!(find_last(&chars, 5, '.'), Some(3));
    assert_eq!(find_last(&chars, 3, '.'), Some(1));
    assert_eq!(find_last(&chars, 1, '.'), None);
    assert_eq!(find_last(&chars, 0, '.'), None);
    assert_eq!(find_last(&chars, 5, 'x'), None);
    assert_eq!(find_last(&chars, 5, 'c'), Some(4));
}

#[test]
fn same_text_compares_every_character() {
    assert!(same_text("", ""));
    assert!(same_text("sub", "sub"));
    assert!(same_text("\u{00e9}x", "\u{00e9}x"));
    assert!(!same_text("sub", "su"));
    assert!(!same_text("su", "sub"));
    assert!(!same_text("sub", "suc"));
    assert!(!same_text("", "a"));
}
