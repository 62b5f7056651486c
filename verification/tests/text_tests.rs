use bkdbupdate::text::{
    char_index_of_byte, chars_of, contains_chars, format_i64, format_u32_2, format_u64,
    parse_i32, parse_i64, split_bars, string_of, trim_chars,
};

fn cv(s: &str) -> Vec<char> {
    s.chars().collect()
}

fn st(v: &[char]) -> String {
    v.iter().collect()
}

#[test]
fn split_keeps_empty_fields_and_line_end() {
    let f = split_bars(&cv("a|b||c\n"));
    let got: Vec<String> = f.iter().map(|x| st(x)).collect();
    assert_eq!(got, vec!["a", "b", "", "c\n"]);
    assert_eq!(split_bars(&cv("")).len(), 1);
    assert_eq!(split_bars(&cv("|")).len(), 2);
}

#[test]
fn split_matches_std_split() {
    for s in ["", "x", "|", "||", "a|", "|a", "name|12|2023-01-01 10:00:00|/d|ref|md5\n", "é|ü|"] {
        let mine: Vec<String> = split_bars(&cv(s)).iter().map(|x| st(x)).collect();
        let std: Vec<String> = s.split('|').map(|x| x.to_string()).collect();
        assert_eq!(mine, std, "for {:?}", s);
    }
}

#[test]
fn trim_matches_std_trim() {
    for s in ["  ab \t\n", "", "   ", "x", "\u{3000}x\u{a0}", "\u{2028} a b \u{85}", "\u{200b}y"] {
        assert_eq!(st(&trim_chars(&cv(s))), s.trim(), "for {:?}", s);
    }
}

#[test]
fn contains_matches_std_contains() {
    let cases = [("/home/user/tmp", "tmp"), ("/home/user", "tmp"), ("abc", ""), ("", ""), ("", "a"), ("aab", "ab"), ("ab", "abc")];
    for (s, p) in cases {
        assert_eq!(contains_chars(&cv(s), &cv(p)), s.contains(p), "for {:?} {:?}", s, p);
    }
}

#[test]
fn byte_positions_follow_utf8() {
    assert_eq!(char_index_of_byte(&cv("2023-01-05 12:34:56"), 10), Some(10));
    assert_eq!(char_index_of_byte(&cv("2023-01-05 12:34:56"), 13), Some(13));
    assert_eq!(char_index_of_byte(&cv("short"), 10), None);
    assert_eq!(char_index_of_byte(&cv("abc"), 3), Some(3));
    // 'é' takes two bytes: byte 1 is inside it, byte 2 ends it.
    assert_eq!(char_index_of_byte(&cv("é1"), 1), None);
    assert_eq!(char_index_of_byte(&cv("é1"), 2), Some(1));
    for s in ["2023-01-05 12:34:56", "éééééééé-12:00", "€€€€ 12345678", "𝄞𝄞𝄞 0123456789"] {
        for b in 0..20usize {
            let expect = if s.is_char_boundary(b) { Some(s[..b].chars().count()) } else { None };
            assert_eq!(char_index_of_byte(&cv(s), b), expect, "for {:?} at {}", s, b);
        }
    }
}

#[test]
fn decimal_formats() {
    assert_eq!(format_u64(0), "0");
    assert_eq!(format_u64(1234), "1234");
    assert_eq!(format_u64(u64::MAX), u64::MAX.to_string());
    assert_eq!(format_i64(-42), "-42");
    assert_eq!(format_i64(i64::MIN), i64::MIN.to_string());
    assert_eq!(format_i64(7), "7");
    assert_eq!(format_u32_2(7), "07");
    assert_eq!(format_u32_2(0), "00");
    assert_eq!(format_u32_2(12), "12");
    assert_eq!(format_u32_2(123), "123");
}

#[test]
fn parse_matches_std_parse() {
    let cases = [
        "", "+", "-", "0", "-0", "+12", "12", "12a", " 12", "12 ", "007", "-9999",
        "9223372036854775807", "9223372036854775808", "-9223372036854775808",
        "-9223372036854775809", "2147483647", "2147483648", "-2147483648", "-2147483649",
        "99999999999999999999999", "١٢", "+-1",
    ];
    for s in cases {
        assert_eq!(parse_i64(&cv(s)), s.parse::<i64>().ok(), "i64 for {:?}", s);
        assert_eq!(parse_i32(&cv(s)), s.parse::<i32>().ok(), "i32 for {:?}", s);
    }
}

#[test]
fn text_conversions_round_trip() {
    let s = "a|é€𝄞\n";
    let v = chars_of(s);
    assert_eq!(v, cv(s));
    assert_eq!(string_of(v), s);
}
