use api::search::convert_to_fts5_format;
use api::text::{push_decimal_i64, push_decimal_usize};

#[test]
fn fts5_two_words() {
    assert_eq!(convert_to_fts5_format("ab c"), "\"ab\"* \"c\"*");
}

#[test]
fn fts5_empty_query() {
    assert_eq!(convert_to_fts5_format(""), "");
}

#[test]
fn fts5_whitespace_only_query() {
    assert_eq!(convert_to_fts5_format(" \t\n\u{3000} "), "");
}

#[test]
fn fts5_skips_words_without_alphanumerics() {
    assert_eq!(convert_to_fts5_format("!!! ab --- ?"), "\"ab\"*");
    assert_eq!(convert_to_fts5_format("... ,,, \"\""), "");
}

#[test]
fn fts5_doubles_quotes() {
    assert_eq!(convert_to_fts5_format("say \"hi\""), "\"say\"* \"\"\"hi\"\"\"*");
    assert_eq!(convert_to_fts5_format("a\"b"), "\"a\"\"b\"*");
}

#[test]
fn fts5_collapses_runs_of_whitespace() {
    assert_eq!(convert_to_fts5_format("  napoleon \t  20   francs  "), "\"napoleon\"* \"20\"* \"francs\"*");
}

#[test]
fn fts5_leading_whitespace_changes_nothing() {
    let q = "vreneli 1935";
    assert_eq!(convert_to_fts5_format(&format!(" {q}")), convert_to_fts5_format(q));
    assert_eq!(convert_to_fts5_format(&format!("\u{2003}{q}")), convert_to_fts5_format(q));
}

#[test]
fn fts5_unicode_words() {
    assert_eq!(convert_to_fts5_format("café münze"), "\"café\"* \"münze\"*");
    assert_eq!(convert_to_fts5_format("٣ ¾"), "\"٣\"* \"¾\"*");
    assert_eq!(convert_to_fts5_format("— ✓"), "");
}

#[test]
fn fts5_splits_on_unicode_whitespace_only() {
    // NO-BREAK SPACE separates words; ZERO WIDTH SPACE does not.
    assert_eq!(convert_to_fts5_format("a\u{A0}b"), "\"a\"* \"b\"*");
    assert_eq!(convert_to_fts5_format("a\u{200B}b"), "\"a\u{200B}b\"*");
}

#[test]
fn fts5_term_decodes_back_to_word() {
    let word = "x\"\"y\"";
    let formatted = convert_to_fts5_format(word);
    let inner = &formatted[1..formatted.len() - 2];
    assert_eq!(inner.replace("\"\"", "\""), word);
}

#[test]
fn whitespace_matches_unicode_white_space() {
    let spaces: Vec<u32> = vec![
        0x09, 0x0A, 0x0B, 0x0C, 0x0D, 0x20, 0x85, 0xA0, 0x1680, 0x2000, 0x2001, 0x2002, 0x2003, 0x2004, 0x2005,
        0x2006, 0x2007, 0x2008, 0x2009, 0x200A, 0x2028, 0x2029, 0x202F, 0x205F, 0x3000,
    ];
    for u in 0u32..0x11000 {
        if let Some(c) = char::from_u32(u) {
            let expected = if spaces.contains(&u) { "\"a\"* \"b\"*".to_string() } else { format!("\"a{}b\"*", if c == '"' { "\"\"".to_string() } else { c.to_string() }) };
            assert_eq!(convert_to_fts5_format(&format!("a{c}b")), expected, "U+{u:04X}");
        }
    }
}

#[test]
fn alphanumeric_within_ascii_is_letters_and_digits() {
    for u in 0u32..0x80 {
        let c = char::from_u32(u).unwrap();
        if c.is_whitespace() || c == '"' {
            continue;
        }
        let kept = !convert_to_fts5_format(&c.to_string()).is_empty();
        assert_eq!(kept, c.is_ascii_alphanumeric(), "U+{u:04X}");
    }
    assert_eq!(convert_to_fts5_format("é"), "\"é\"*");
    assert_eq!(convert_to_fts5_format("藏"), "\"藏\"*");
    assert_eq!(convert_to_fts5_format("€"), "");
}

#[test]
fn decimal_formatting() {
    let mut s = String::new();
    push_decimal_i64(&mut s, i64::MIN);
    assert_eq!(s, "-9223372036854775808");
    let mut s = String::from("n=");
    push_decimal_i64(&mut s, 0);
    assert_eq!(s, "n=0");
    let mut s = String::new();
    push_decimal_i64(&mut s, i64::MAX);
    assert_eq!(s, i64::MAX.to_string());
    let mut s = String::new();
    push_decimal_usize(&mut s, 1907);
    assert_eq!(s, "1907");
}
