use audiosource::text::{
    chars_of, decimal_string, first_token_of, hex_of, lines_of, parse_i32_str, str_contains,
    trim_end_of, trim_of,
};

fn lines(s: &str) -> Vec<String> {
    lines_of(&chars_of(s)).into_iter().map(|l| l.into_iter().collect()).collect()
}

fn std_lines(s: &str) -> Vec<String> {
    s.lines().map(|l| l.to_string()).collect()
}

#[test]
fn lines_match_std() {
    for s in ["", "\n", "a", "a\n", "a\r\nb", "a\rb\n", "a\n\nb\n\n", "x\r", "\r\n", "one\ntwo\r\nthree"] {
        assert_eq!(lines(s), std_lines(s), "input {:?}", s);
    }
}

#[test]
fn final_line_ending_is_optional() {
    assert_eq!(lines("a\nb"), lines("a\nb\n"));
    assert_eq!(lines("a\nb"), lines("a\nb\r\n"));
}

#[test]
fn first_token_matches_split_whitespace() {
    for s in ["", "   ", "12 module-null-sink args", "  \t7\tx", "abc", "\u{3000}id rest"] {
        let got = first_token_of(&chars_of(s)).map(|t| t.into_iter().collect::<String>());
        let want = s.split_whitespace().next().map(|t| t.to_string());
        assert_eq!(got, want, "input {:?}", s);
    }
}

#[test]
fn trim_matches_std() {
    for s in ["", "  ", " Pixel 7 \n", "\u{a0}x\u{2003}", "abc"] {
        let got: String = trim_of(&chars_of(s)).into_iter().collect();
        assert_eq!(got, s.trim());
        let got_end: String = trim_end_of(&chars_of(s)).into_iter().collect();
        assert_eq!(got_end, s.trim_end());
    }
}

#[test]
fn decimal_formats_like_display() {
    for n in [0u64, 7, 10, 42, 1000, 2147483647, u64::MAX] {
        assert_eq!(decimal_string(n), n.to_string());
    }
}

#[test]
fn parse_i32_matches_std() {
    for s in [
        "", "-", "+", "0", "12345", "-12345", "+17", "2147483647", "2147483648", "-2147483648",
        "-2147483649", "12a", " 12", "12\n", "99999999999999999999", "--1",
    ] {
        assert_eq!(parse_i32_str(s), s.parse::<i32>().ok(), "input {:?}", s);
    }
}

#[test]
fn parse_reads_back_decimal() {
    for n in [0u64, 1, 4321, 2147483647] {
        assert_eq!(parse_i32_str(&decimal_string(n)), Some(n as i32));
    }
}

#[test]
fn hex_is_lower_case_two_digits_per_byte() {
    let got: String = hex_of(&[0x00, 0x0a, 0xff, 0x5c]).into_iter().collect();
    assert_eq!(got, "000aff5c");
}

#[test]
fn contains_matches_std() {
    for (h, n) in [("abc", ""), ("", ""), ("", "a"), ("hello world", "o w"), ("aaab", "aab"), ("abc", "abcd")] {
        assert_eq!(str_contains(h, n), h.contains(n));
    }
}
