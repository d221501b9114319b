use whisp_rs::hotkey::{key_from_name, KEY_F12};
use whisp_rs::applet::hotkey_label;
use whisp_rs::text::{split_words, str_eq, to_decimal};

#[test]
fn equality() {
    assert!(str_eq("abc", "abc"));
    assert!(!str_eq("abc", "abd"));
    assert!(!str_eq("abc", "ab"));
    assert!(str_eq("", ""));
    assert!(str_eq("é", "é"));
}

#[test]
fn decimal() {
    assert_eq!(to_decimal(0), "0");
    assert_eq!(to_decimal(7), "7");
    assert_eq!(to_decimal(10), "10");
    assert_eq!(to_decimal(16000), "16000");
    assert_eq!(to_decimal(u64::MAX), u64::MAX.to_string());
}

#[test]
fn case_mapping() {
    assert_eq!(key_from_name("F12"), Some(KEY_F12));
    assert_eq!(hotkey_label(&[], "f12"), "F12");
    assert_eq!(hotkey_label(&[], "ß"), "SS");
}

#[test]
fn words() {
    assert_eq!(split_words("  user adm\tinput\n"), vec!["user", "adm", "input"]);
    assert_eq!(split_words(""), Vec::<String>::new());
    assert_eq!(split_words("   "), Vec::<String>::new());
    assert_eq!(split_words("one"), vec!["one"]);
    assert_eq!(split_words("a\u{3000}b"), vec!["a", "b"]);
    let s = "nova-2 (best accuracy)";
    let expected: Vec<String> = s.split_whitespace().map(|w| w.to_string()).collect();
    assert_eq!(split_words(s), expected);
}

#[test]
fn whitespace_is_the_unicode_white_space_set() {
    let listed = |u: u32| {
        (0x9..=0xD).contains(&u)
            || u == 0x20
            || u == 0x85
            || u == 0xA0
            || u == 0x1680
            || (0x2000..=0x200A).contains(&u)
            || u == 0x2028
            || u == 0x2029
            || u == 0x202F
            || u == 0x205F
            || u == 0x3000
    };
    for u in 0..=0x10FFFFu32 {
        if let Some(c) = char::from_u32(u) {
            let s = format!("a{c}b");
            let expected = if listed(u) { 2 } else { 1 };
            assert_eq!(split_words(&s).len(), expected, "U+{u:04X}");
        }
    }
}
