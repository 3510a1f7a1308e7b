use realworld_balance::text::{chars_of, contains_infix, int_to_text, replace_all, string_of};

fn chars(s: &str) -> Vec<char> {
    s.chars().collect()
}

#[test]
fn replace_all_matches_std() {
    for (s, p, r) in [
        ("A_B_C", "_", "."),
        ("aaaa", "aa", "b"),
        ("KAFKA.KAFKA.X", "KAFKA.", ""),
        ("abc", "abcd", "x"),
        ("", "a", "b"),
        ("ééé", "é", "e"),
    ] {
        let out = replace_all(&chars(s), &chars(p), &chars(r));
        assert_eq!(string_of(&out), s.replace(p, r), "{} {} {}", s, p, r);
    }
}

#[test]
fn contains_matches_std() {
    for (s, p) in [("KAFKA_X", "KAFKA"), ("XKAFK", "KAFKA"), ("", ""), ("abc", ""), ("ab", "abc")] {
        assert_eq!(contains_infix(&chars(s), &chars(p)), s.contains(p), "{} {}", s, p);
    }
}

#[test]
fn integer_text_matches_std() {
    for x in [0i64, 9, 10, -1, -10, 1234567890, i64::MIN, i64::MAX] {
        assert_eq!(int_to_text(x), x.to_string());
    }
}

#[test]
fn chars_round_trip() {
    assert_eq!(string_of(&chars_of("h\u{e9}llo")), "h\u{e9}llo");
}
