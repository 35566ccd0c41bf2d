use superego::numeral::{i64_to_string, parse_i64, parse_usize};

#[test]
fn signed_parsing_matches_the_standard_library() {
    for s in ["0", "12", "+5", "-7", "9223372036854775807", "-9223372036854775808", "007"] {
        assert_eq!(parse_i64(s), s.parse::<i64>().ok(), "on {:?}", s);
    }
    for s in ["", "+", "-", "1.5", " 3", "3 ", "9223372036854775808", "-9223372036854775809", "1_0", "abc"] {
        assert_eq!(parse_i64(s), None, "on {:?}", s);
        assert!(s.parse::<i64>().is_err(), "on {:?}", s);
    }
}

#[test]
fn unsigned_parsing_matches_the_standard_library() {
    for s in ["0", "42", "+9", "18446744073709551615"] {
        assert_eq!(parse_usize(s), s.parse::<usize>().ok(), "on {:?}", s);
    }
    for s in ["", "-1", "18446744073709551616", "4x"] {
        assert_eq!(parse_usize(s), None, "on {:?}", s);
        assert!(s.parse::<usize>().is_err(), "on {:?}", s);
    }
}

#[test]
fn printing_matches_the_standard_library() {
    for v in [0i64, 5, -5, 10, 909, i64::MAX, i64::MIN] {
        assert_eq!(i64_to_string(v), v.to_string());
    }
}
