use rikkahub_shell::text::{decimal, eq_ignore_ascii_case, trim, trim_end};

#[test]
fn trim_cuts_white_space_at_both_ends() {
    assert_eq!(trim("  D:\\data dir \r\n"), "D:\\data dir");
    assert_eq!(trim("\u{3000}\u{a0}x\u{2009}y\u{85}"), "x\u{2009}y");
    assert_eq!(trim(""), "");
    assert_eq!(trim(" \t "), "");
    assert_eq!(trim("x"), "x");
    assert_eq!(trim("\u{200b}"), "\u{200b}");
}

#[test]
fn trim_agrees_with_std_on_every_character() {
    for c in '\0'..=char::MAX {
        let text = format!("{c}a{c}b{c}");
        assert_eq!(trim(&text), text.trim(), "{:?}", c);
        assert_eq!(trim_end(&text), text.trim_end(), "{:?}", c);
    }
}

#[test]
fn trim_twice_is_trim_once() {
    let once = trim("\n\t C:\\x \u{2028}");
    assert_eq!(once, "C:\\x");
    assert_eq!(trim(once), once);
}

#[test]
fn padding_is_ignored() {
    for s in ["", " ", "x", "a b", " \u{3000}a "] {
        let padded = format!("\t\u{2003}{}\r\n ", s);
        assert_eq!(trim(&padded), trim(s));
    }
}

#[test]
fn trim_end_leaves_the_start() {
    assert_eq!(trim_end("  listening on 8080\r\n"), "  listening on 8080");
    assert_eq!(trim_end(" \n"), "");
    assert_eq!(trim_end(""), "");
}

#[test]
fn ascii_case_is_ignored() {
    assert!(eq_ignore_ascii_case("exe", "exe"));
    assert!(eq_ignore_ascii_case("ExE", "eXe"));
    assert!(!eq_ignore_ascii_case("exe", "ex"));
    assert!(!eq_ignore_ascii_case("bat", "exe"));
    assert!(!eq_ignore_ascii_case("@", "`"));
    assert!(!eq_ignore_ascii_case("[", "{"));
    assert!(!eq_ignore_ascii_case("Ä", "ä"));
    assert!(eq_ignore_ascii_case("", ""));
}

#[test]
fn ascii_case_agrees_with_std() {
    for a in '\0'..='\u{ff}' {
        for b in '\0'..='\u{ff}' {
            let (a, b) = (a.to_string(), b.to_string());
            assert_eq!(eq_ignore_ascii_case(&a, &b), a.eq_ignore_ascii_case(&b));
        }
    }
}

#[test]
fn decimal_has_no_leading_zeros() {
    assert_eq!(decimal(0), "0");
    assert_eq!(decimal(9), "9");
    assert_eq!(decimal(10), "10");
    assert_eq!(decimal(8080), "8080");
    assert_eq!(decimal(u64::MAX), "18446744073709551615");
}
