use yggtorrent::text::{
    after_first_of, chars_of, contains, decimal_string, parse_unsigned, replace_all, split_on,
    string_of, trim, trim_start,
};

fn chars(s: &str) -> Vec<char> {
    s.chars().collect()
}

fn text(v: &[char]) -> String {
    v.iter().collect()
}

#[test]
fn conversions_roundtrip() {
    let v = chars_of("héllo wörld");
    assert_eq!(v, chars("héllo wörld"));
    assert_eq!(string_of(&v), "héllo wörld");
    assert_eq!(string_of(&[]), "");
}

#[test]
fn decimal_numbers() {
    assert_eq!(decimal_string(0), "0");
    assert_eq!(decimal_string(7), "7");
    assert_eq!(decimal_string(2145), "2145");
    assert_eq!(decimal_string(u64::MAX), "18446744073709551615");
}

#[test]
fn unsigned_parsing_follows_str_parse() {
    for s in ["0", "42", "+42", "007", "4294967295", "4294967296", "", "+", "-1", "1 2", "x", "++1"] {
        let expected = s.parse::<u32>().ok().map(u64::from);
        assert_eq!(parse_unsigned(&chars(s), u32::MAX as u64), expected, "text {:?}", s);
    }
    assert_eq!(parse_unsigned(&chars("18446744073709551615"), u64::MAX), Some(u64::MAX));
    assert_eq!(parse_unsigned(&chars("18446744073709551616"), u64::MAX), None);
}

#[test]
fn decimal_parse_roundtrip() {
    for n in [0u64, 1, 9, 10, 99, 100, 65535, 4294967295, u64::MAX] {
        assert_eq!(parse_unsigned(&chars(&decimal_string(n)), u64::MAX), Some(n));
    }
}

#[test]
fn trimming_follows_str_trim() {
    for s in ["  a b  ", "\u{3000}x\u{a0}", "\t\n", "", "no", " \u{2028}y\u{85}z\r "] {
        assert_eq!(text(&trim(&chars(s))), s.trim(), "text {:?}", s);
        assert_eq!(text(&trim_start(&chars(s))), s.trim_start(), "text {:?}", s);
    }
}

#[test]
fn replacing_follows_str_replace() {
    for (s, from, to) in [
        ("a-b-c", "-", " "),
        ("aaaa", "aa", "b"),
        ("xyz", "q", "r"),
        ("1 234 567", " ", ""),
        ("\\u003Cp\\u003E", "\\u003C", "<"),
        ("", "a", "b"),
    ] {
        assert_eq!(text(&replace_all(&chars(s), &chars(from), &chars(to))), s.replace(from, to));
    }
}

#[test]
fn splitting_follows_str_split() {
    for s in ["a;b;;c", "", ";", "abc", "x=1=2"] {
        for c in [';', '='] {
            let expected: Vec<Vec<char>> = s.split(c).map(chars).collect();
            assert_eq!(split_on(&chars(s), c), expected);
        }
    }
}

#[test]
fn searching() {
    assert!(contains(&chars("a; Expires=x"), &chars("Expires")));
    assert!(!contains(&chars("a; expire=x"), &chars("Expires")));
    assert!(contains(&chars("abc"), &chars("")));
    assert_eq!(after_first_of(&chars("id=42=x"), '='), Some(chars("42=x")));
    assert_eq!(after_first_of(&chars("id"), '='), None);
}
