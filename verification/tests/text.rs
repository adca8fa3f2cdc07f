use whistle::text::{bytes_equal, bytes_less, text_before, text_equal};

const SAMPLES: [&str; 16] =
    ["", "a", "aa", "ab", "b", "B", "10", "9", "9.5", "9.49", "é", "e\u{301}", "z", "日", "\u{7f}", "\u{80}"];

#[test]
fn bytes_less_is_lexicographic() {
    assert!(bytes_less(b"", b"a"));
    assert!(!bytes_less(b"a", b""));
    assert!(!bytes_less(b"", b""));
    assert!(bytes_less(b"a", b"ab"));
    assert!(!bytes_less(b"ab", b"a"));
    assert!(bytes_less(b"ab", b"b"));
    assert!(bytes_less(b"10", b"9"));
    assert!(!bytes_less(b"9", b"10"));
    assert!(bytes_less(&[1, 2, 3], &[1, 2, 4]));
    assert!(bytes_less(&[1, 2, 255], &[1, 3]));
    assert!(!bytes_less(&[200], &[100, 255]));
}

#[test]
fn bytes_less_agrees_with_slice_order() {
    for a in SAMPLES {
        for b in SAMPLES {
            assert_eq!(bytes_less(a.as_bytes(), b.as_bytes()), a.as_bytes() < b.as_bytes(), "{a:?} {b:?}");
        }
    }
}

#[test]
fn bytes_equal_compares_every_byte() {
    assert!(bytes_equal(b"", b""));
    assert!(bytes_equal(b"abc", b"abc"));
    assert!(!bytes_equal(b"abc", b"abd"));
    assert!(!bytes_equal(b"abc", b"ab"));
    assert!(!bytes_equal(b"ab", b"abc"));
    assert!(!bytes_equal(b"xbc", b"abc"));
}

#[test]
fn text_equal_agrees_with_string_equality() {
    for a in SAMPLES {
        for b in SAMPLES {
            assert_eq!(text_equal(a, b), a == b, "{a:?} {b:?}");
        }
    }
}

#[test]
fn text_before_agrees_with_string_order() {
    for a in SAMPLES {
        for b in SAMPLES {
            assert_eq!(text_before(a, b), a < b, "{a:?} {b:?}");
        }
    }
}

#[test]
fn text_before_is_never_true_both_ways() {
    for a in SAMPLES {
        assert!(!text_before(a, a));
        for b in SAMPLES {
            assert!(!(text_before(a, b) && text_before(b, a)));
        }
    }
}
