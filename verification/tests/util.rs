use identity::util::control_email;
use identity::util::get_hash;
use identity::util::instant;
use identity::util::now_nanos;
use identity::util::now_seconds;
use identity::util::same_text;

#[test]
fn control_email_wants_one_plain_character() {
    assert!(control_email("michael@outlook.be"));
    assert!(control_email("a"));
    assert!(control_email("0"));
    assert!(control_email("_"));
    assert!(control_email("+"));
    assert!(control_email("A.b"));
    assert!(control_email("@z"));
    assert!(control_email("email.admin@server.com"));
    assert!(!control_email(""));
    assert!(!control_email("@"));
    assert!(!control_email("."));
    assert!(!control_email("ABC@DEF.GH"));
    assert!(!control_email("-- ??"));
    assert!(!control_email("\u{e9}\u{e8}"));
}

#[test]
fn control_email_agrees_with_the_pattern() {
    let pattern = regex::Regex::new(r"[a-z0-9_+]([a-z0-9_+.]*[a-z0-9_+])?").unwrap();
    let samples = [
        "", "a", "A", "z", "Z", "0", "9", "_", "+", ".", "-", "@", " ", "a.b", "A.B", ".a.", "..", "a@b.c",
        "ALICE@EXAMPLE.COM", "alice@example.com", "\u{e9}", "\u{e9}a", "`", "{", "/", ":", "^", "*", ",",
        "\n", "\na", "Stra\u{df}e", "\u{1f600}", "\u{1f600}+", "A B C d",
    ];
    for s in samples.iter() {
        assert_eq!(control_email(s), pattern.is_match(s));
    }
}

#[test]
fn get_hash_is_hexadecimal() {
    assert_eq!(get_hash(0), "");
    for n in [1usize, 8, 21, 40, 200] {
        let h = get_hash(n);
        assert_eq!(h.len(), n);
        assert!(h.chars().all(|c| c.is_ascii_digit() || ('a'..='f').contains(&c)));
    }
    let long = get_hash(400);
    assert!(long.chars().any(|c| c != 'f'));
    assert!(long.chars().any(|c| c != long.chars().next().unwrap()));
    assert_ne!(get_hash(40), get_hash(40));
}

#[test]
fn same_text_compares_characters() {
    assert!(same_text("", ""));
    assert!(same_text("abc", "abc"));
    assert!(!same_text("abc", "abd"));
    assert!(!same_text("abc", "ab"));
    assert!(!same_text("a", "A"));
}

#[test]
fn clock_shows_the_present() {
    let s = now_seconds();
    let n = now_nanos();
    assert!(s > 1_600_000_000);
    assert!(s < 185_542_587_187_200);
    assert!(n >= (s as i128) * 1_000_000_000);
    assert!(n < (s as i128 + 5) * 1_000_000_000);
    let later = now_nanos();
    assert!(later >= n);
}

#[test]
fn instant_counts_nanoseconds() {
    assert_eq!(instant(0, 0), 0);
    assert_eq!(instant(1, 5), 1_000_000_005);
    assert_eq!(instant(1_700_000_000, 999_999_999), 1_700_000_000_999_999_999);
    assert_eq!(instant(59, 1_999_999_999), 60_999_999_999);
    assert_eq!(instant(-1, 0), -1_000_000_000);
    assert_eq!(instant(-1, 1), -999_999_999);
    assert_eq!(instant(i64::MAX, u32::MAX), 9_223_372_036_854_775_807_000_000_000 + 4_294_967_295);
    assert_eq!(instant(i64::MIN, 0), -9_223_372_036_854_775_808_000_000_000);
}
