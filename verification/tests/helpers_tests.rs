use regex::Regex;
use rx_repack::helpers::{is_kept_char, sanitize};

fn with_regex(s: &str) -> String {
    let s_nonull = s.replace('\0', "");
    Regex::new(r#"[^A-Za-z0-9\.\-]+"#)
        .unwrap()
        .replace_all(&s_nonull, "_")
        .to_string()
}

const SAMPLES: [&str; 24] = [
    "",
    "\0",
    "\0\0\0",
    " ",
    "   ",
    "abc",
    "DOE^JOHN",
    "Brain MRI",
    "MRN100-DOE^JOHN-19700101",
    "a  b",
    "a \0 b",
    "a\0b",
    "../../etc/passwd",
    "C:\\Users\\x",
    "x/y",
    "_",
    "__a__",
    "a_b",
    "tr\u{e9}s bien",
    "\u{1F600}\u{1F600}",
    "line\nbreak\ttab",
    "0007-9.9.9.dcm",
    "-.-",
    "end ",
];

#[test]
fn sanitize_does_what_the_pattern_does() {
    for s in SAMPLES {
        assert_eq!(sanitize(s), with_regex(s), "{:?}", s);
    }
}

#[test]
fn sanitize_examples() {
    assert_eq!(sanitize("DOE^JOHN"), "DOE_JOHN");
    assert_eq!(sanitize("Brain MRI"), "Brain_MRI");
    assert_eq!(sanitize("a  ^^  b"), "a_b");
    assert_eq!(sanitize("1.2.3"), "1.2.3");
    assert_eq!(sanitize("A-z.0"), "A-z.0");
    assert_eq!(sanitize("a\0b"), "ab");
    assert_eq!(sanitize("a \0 b"), "a_b");
    assert_eq!(sanitize("/"), "_");
    assert_eq!(sanitize("_"), "_");
}

#[test]
fn sanitized_text_is_safe() {
    for s in SAMPLES {
        let r = sanitize(s);
        for c in r.chars() {
            assert!(
                c.is_ascii_alphanumeric() || c == '.' || c == '-' || c == '_',
                "{:?} in sanitize({:?})",
                c,
                s
            );
        }
        assert!(!r.contains('\0'));
        assert!(!r.contains('/'));
        assert_eq!(r.is_empty(), s.replace('\0', "").is_empty(), "{:?}", s);
    }
}

#[test]
fn sanitize_is_idempotent_on_the_samples() {
    for s in SAMPLES {
        let once = sanitize(s);
        assert_eq!(sanitize(&once), once);
    }
}

#[test]
fn kept_characters() {
    for c in ['A', 'Z', 'a', 'z', '0', '9', '.', '-'] {
        assert!(is_kept_char(c));
    }
    for c in ['_', ' ', '^', '/', '\\', '\0', '@', '[', '`', '{', ':', '\u{e9}'] {
        assert!(!is_kept_char(c));
    }
}
