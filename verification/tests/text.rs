use ogonek_gh::text::{
    chars_of, is_white_space_char, parse_trimmed_i32, parse_trimmed_i64, parse_trimmed_u64,
    trim_bounds,
};

fn whole<T>(s: &str, f: fn(&Vec<char>, usize, usize) -> T) -> T {
    let v = chars_of(s);
    f(&v, 0, v.len())
}

const SAMPLES: &[&str] = &[
    "", " ", "0", "7", "+7", "-7", "+", "-", "--1", "+-1", "-+1", " 42 ", "\t-42\n", "4 2", "12a",
    "a12", "007", "-0", "+0", "\u{3000}15\u{2003}", "\u{a0}9", "\u{200b}9", "\u{85}-3\u{2028}",
    "2147483647", "2147483648", "-2147483648", "-2147483649", "9223372036854775807",
    "9223372036854775808", "-9223372036854775808", "-9223372036854775809",
    "18446744073709551615", "18446744073709551616", "99999999999999999999999", "١٢",
];

#[test]
fn white_space_matches_char_is_whitespace() {
    for code in 0u32..0x110000 {
        if let Some(c) = char::from_u32(code) {
            assert_eq!(is_white_space_char(c), c.is_whitespace(), "U+{:04X}", code);
        }
    }
}

#[test]
fn chars_of_keeps_every_char() {
    assert_eq!(chars_of("a\u{e9}\u{1F600} b"), vec!['a', '\u{e9}', '\u{1F600}', ' ', 'b']);
    assert!(chars_of("").is_empty());
}

#[test]
fn trim_bounds_match_str_trim() {
    for s in SAMPLES {
        let v = chars_of(s);
        let (a, b) = trim_bounds(&v, 0, v.len());
        let got: String = v[a..b].iter().collect();
        assert_eq!(got, s.trim(), "{:?}", s);
    }
}

#[test]
fn trim_bounds_of_a_middle_range() {
    let v = chars_of("x  ab c  y");
    assert_eq!(trim_bounds(&v, 1, 9), (3, 7));
    assert_eq!(trim_bounds(&v, 1, 3), (3, 3));
}

#[test]
fn parsing_matches_str_parse() {
    for s in SAMPLES {
        assert_eq!(whole(s, parse_trimmed_i64), s.trim().parse::<i64>().ok(), "i64 {:?}", s);
        assert_eq!(whole(s, parse_trimmed_i32), s.trim().parse::<i32>().ok(), "i32 {:?}", s);
        assert_eq!(whole(s, parse_trimmed_u64), s.trim().parse::<u64>().ok(), "u64 {:?}", s);
    }
}

#[test]
fn parsing_exact_values() {
    assert_eq!(whole(" -1003012627795 ", parse_trimmed_i64), Some(-1003012627795));
    assert_eq!(whole("-9223372036854775808", parse_trimmed_i64), Some(i64::MIN));
    assert_eq!(whole("9223372036854775808", parse_trimmed_i64), None);
    assert_eq!(whole("-2147483648", parse_trimmed_i32), Some(i32::MIN));
    assert_eq!(whole("+12", parse_trimmed_i32), Some(12));
    assert_eq!(whole("-0", parse_trimmed_u64), None);
    assert_eq!(whole("18446744073709551615", parse_trimmed_u64), Some(u64::MAX));
    assert_eq!(whole("-", parse_trimmed_i64), None);
    assert_eq!(whole("", parse_trimmed_u64), None);
}
