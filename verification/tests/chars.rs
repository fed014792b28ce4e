use anubot::chars::{i64_to_string, parse_i64, trim_str};

#[test]
fn integers_parse_like_std() {
    for s in ["0", "42", "-42", "+42", "007", "9223372036854775807", "-9223372036854775808"] {
        assert_eq!(parse_i64(s), s.parse::<i64>().ok(), "{s}");
    }
    for s in ["", "-", "+", " 1", "1 ", "1.0", "9223372036854775808", "-9223372036854775809", "--1"] {
        assert_eq!(parse_i64(s), None, "{s}");
    }
}

#[test]
fn integers_print_like_std() {
    for n in [0, 7, -7, 10, 1_000_000, i64::MAX, i64::MIN] {
        assert_eq!(i64_to_string(n), n.to_string());
        assert_eq!(parse_i64(&i64_to_string(n)), Some(n));
    }
}

#[test]
fn trimming_like_std() {
    for s in ["", "  ", " a ", "\u{3000}全角\u{3000}", "\t\nx y\r\n", "a"] {
        assert_eq!(trim_str(s), s.trim());
    }
}

#[test]
fn trimming_twice_is_trimming_once() {
    for s in ["  a b  ", "\u{3000}x", "", " "] {
        let once = trim_str(s);
        assert_eq!(trim_str(&once), once);
    }
}
