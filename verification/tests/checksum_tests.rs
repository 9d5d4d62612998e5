use seer_updater::parse_sha256;
use seer_updater::text::trim;

const DIGEST: &str = "9f86d081884c7d659a2feaa0c55ad015a3bf4f1b2b0b822cd15d6c15b0f00a08";
const DIGEST_UPPER: &str = "9F86D081884C7D659A2FEAA0C55AD015A3BF4F1B2B0B822CD15D6C15B0F00A08";

/// A parser written directly with std's string functions.
fn reference_parse(text: &str) -> Option<String> {
    for line in text.lines() {
        let line = line.trim();
        if line.is_empty() {
            continue;
        }
        let hash = line.split_whitespace().next().unwrap_or("");
        if hash.len() == 64 && hash.chars().all(|c| c.is_ascii_hexdigit()) {
            return Some(hash.to_lowercase());
        }
    }
    None
}

#[test]
fn digest_followed_by_file_name() {
    let text = format!("{}  updater.exe\n", DIGEST);
    assert_eq!(parse_sha256(&text), Some(DIGEST.to_string()));
}

#[test]
fn bare_digest() {
    assert_eq!(parse_sha256(DIGEST), Some(DIGEST.to_string()));
}

#[test]
fn uppercase_digest_is_lowercased() {
    let text = format!("{} *updater.exe", DIGEST_UPPER);
    assert_eq!(parse_sha256(&text), Some(DIGEST.to_string()));
}

#[test]
fn crlf_and_blank_lines_are_passed_over() {
    let text = format!("\r\n   \r\n\t{}\tupdater.exe\r\n", DIGEST);
    assert_eq!(parse_sha256(&text), Some(DIGEST.to_string()));
}

#[test]
fn first_valid_line_wins() {
    let other = "0".repeat(64);
    let text = format!("# checksums\nnot-a-digest updater.exe\n{}  a\n{}  b\n", DIGEST, other);
    assert_eq!(parse_sha256(&text), Some(DIGEST.to_string()));
}

#[test]
fn only_the_first_word_of_a_line_counts() {
    let text = format!("updater.exe {}\n", DIGEST);
    assert_eq!(parse_sha256(&text), None);
}

#[test]
fn wrong_lengths_are_rejected() {
    assert_eq!(parse_sha256(&DIGEST[..63]), None);
    assert_eq!(parse_sha256(&format!("{}0", DIGEST)), None);
    assert_eq!(parse_sha256(""), None);
    assert_eq!(parse_sha256("\n\n"), None);
}

#[test]
fn non_hex_digit_is_rejected() {
    let text = format!("{}g", &DIGEST[..63]);
    assert_eq!(parse_sha256(&text), None);
}

#[test]
fn unicode_whitespace_separates_words() {
    let text = format!("\u{3000}{}\u{a0}updater.exe", DIGEST);
    assert_eq!(parse_sha256(&text), Some(DIGEST.to_string()));
    let text = format!("{}\u{2028}x", DIGEST);
    assert_eq!(parse_sha256(&text), Some(DIGEST.to_string()));
}

#[test]
fn non_ascii_text_around_digest() {
    let text = format!("版本資訊\n{}  更新器.exe\n", DIGEST);
    assert_eq!(parse_sha256(&text), Some(DIGEST.to_string()));
}

#[test]
fn agrees_with_reference_parser() {
    let samples = vec![
        String::new(),
        DIGEST.to_string(),
        format!("{}  updater.exe", DIGEST),
        format!("  {}\r\n", DIGEST_UPPER),
        format!("x\n\n{}", DIGEST),
        format!("{}x", DIGEST),
        format!("{}\u{85}y", DIGEST),
        format!("\u{feff}{}", DIGEST),
        format!("{}\r", DIGEST),
        format!("abc\r\ndef\r\n{} z", DIGEST_UPPER),
        "\u{1680}\u{2000}\u{200a}\u{202f}\u{205f}".to_string(),
        format!("{}{}", DIGEST, DIGEST),
        format!("{}\u{b}{}", DIGEST, DIGEST_UPPER),
    ];
    for s in samples {
        assert_eq!(parse_sha256(&s), reference_parse(&s), "input {:?}", s);
    }
}

#[test]
fn trim_removes_unicode_whitespace() {
    assert_eq!(trim("  abc \r\n"), "abc");
    assert_eq!(trim("\u{3000}x y\u{a0}"), "x y");
    assert_eq!(trim(" \t\n"), "");
    assert_eq!(trim("a"), "a");
    for s in ["", " a ", "\u{85}b\u{2029}", "ab\u{200b}"] {
        assert_eq!(trim(s), s.trim());
    }
}

#[test]
fn ascii_case_of_listing_does_not_matter() {
    let samples = vec![
        format!("{}  updater.exe\n", DIGEST),
        format!("Checksums:\n{}  Updater.EXE", DIGEST_UPPER),
        "no digest here".to_string(),
        format!("{}g\n{}", &DIGEST[..63], DIGEST),
    ];
    for s in samples {
        assert_eq!(parse_sha256(&s.to_ascii_uppercase()), parse_sha256(&s));
        assert_eq!(parse_sha256(&s.to_ascii_lowercase()), parse_sha256(&s));
    }
}
