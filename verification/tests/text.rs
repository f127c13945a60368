use sysperf_svr::number::{parse_decimal, parse_u32, parse_u64, u64_to_chars, Decimal};
use sysperf_svr::text::{
    blank, chars_of, copy_range, is_space_char, join, label, same_text, scan_run, scan_run_back,
    split_fields, split_lines, starts_with, strings_of, trim, CharClass,
};

fn chars(s: &str) -> Vec<char> {
    s.chars().collect()
}

fn texts(v: Vec<Vec<char>>) -> Vec<String> {
    v.into_iter().map(|l| l.into_iter().collect()).collect()
}

fn decimal(s: &str) -> Option<Decimal> {
    parse_decimal(&chars(s))
}

#[test]
fn lines_of_a_text() {
    assert_eq!(texts(split_lines(&chars("a\nb\r\nc"))), vec!["a", "b", "c"]);
    assert_eq!(texts(split_lines(&chars("a\n"))), vec!["a"]);
    assert_eq!(texts(split_lines(&chars("a\n\n"))), vec!["a", ""]);
    assert_eq!(texts(split_lines(&chars("\na"))), vec!["", "a"]);
    assert_eq!(texts(split_lines(&chars("a\r"))), vec!["a\r"]);
    assert_eq!(texts(split_lines(&chars("\r\n"))), vec![""]);
    assert!(split_lines(&chars("")).is_empty());
    for sample in ["", "x", "x\n", "\n\n", "a\r\nb\n\rc\r", "one\ntwo\n\nthree"] {
        let expected: Vec<String> = sample.lines().map(String::from).collect();
        assert_eq!(texts(split_lines(&chars(sample))), expected);
    }
}

#[test]
fn fields_of_a_line() {
    assert_eq!(texts(split_fields(&chars("  a \t bb  c"))), vec!["a", "bb", "c"]);
    assert!(split_fields(&chars(" \t ")).is_empty());
    assert!(split_fields(&chars("")).is_empty());
    for sample in ["a", " a", "a ", "1  2\u{a0}3\u{3000}4", "x\u{2003}y"] {
        let expected: Vec<String> = sample.split_whitespace().map(String::from).collect();
        assert_eq!(texts(split_fields(&chars(sample))), expected);
    }
}

#[test]
fn trimming_and_scanning() {
    let t: String = trim(&chars("  a b \n")).into_iter().collect();
    assert_eq!(t, "a b");
    assert!(trim(&chars(" \t")).is_empty());
    assert!(blank(&chars(" \t\r")));
    assert!(blank(&chars("")));
    assert!(!blank(&chars(" x ")));
    assert_eq!(scan_run(&chars("abc:def"), 0, CharClass::Except(':')), 3);
    assert_eq!(scan_run(&chars("abc"), 1, CharClass::Except(':')), 3);
    assert_eq!(scan_run(&chars("  x"), 0, CharClass::Space), 2);
    assert_eq!(scan_run(&chars("xy z"), 0, CharClass::Word), 2);
    assert_eq!(scan_run(&chars("12a"), 0, CharClass::Digit), 2);
    assert_eq!(scan_run_back(&chars("key::"), 0, 5, CharClass::Only(':')), 3);
    assert_eq!(scan_run_back(&chars("::"), 0, 2, CharClass::Only(':')), 0);
    assert_eq!(copy_range(&chars("hello"), 1, 3), chars("el"));
    assert!(is_space_char('\u{2028}'));
    assert!(!is_space_char('\u{200b}'));
    for c in ['\t', '\n', '\u{b}', '\u{c}', '\r', ' ', '\u{85}', '\u{a0}', '\u{1680}', 'a', '0'] {
        assert_eq!(is_space_char(c), c.is_whitespace());
    }
}

#[test]
fn comparing_and_building_texts() {
    assert!(same_text(&chars("abc"), &chars("abc")));
    assert!(!same_text(&chars("abc"), &chars("abd")));
    assert!(!same_text(&chars("abc"), &chars("ab")));
    assert!(starts_with(&chars("Linux 6.1"), &chars("Linux")));
    assert!(starts_with(&chars("x"), &chars("")));
    assert!(!starts_with(&chars("Lin"), &chars("Linux")));
    assert_eq!(chars_of("h\u{e9}llo"), chars("h\u{e9}llo"));
    assert_eq!(label("key: ", &chars("v\u{e4}lue")), "key: v\u{e4}lue");
    assert_eq!(join("a", "b"), "ab");
    assert_eq!(strings_of(&vec![chars("x"), chars("yz")]), vec!["x", "yz"]);
}

#[test]
fn unsigned_numbers() {
    assert_eq!(parse_u64(&chars("0")), Some(0));
    assert_eq!(parse_u64(&chars("+17")), Some(17));
    assert_eq!(parse_u64(&chars("007")), Some(7));
    assert_eq!(parse_u64(&chars("18446744073709551615")), Some(u64::MAX));
    assert_eq!(parse_u64(&chars("18446744073709551616")), None);
    assert_eq!(parse_u64(&chars("99999999999999999999999")), None);
    assert_eq!(parse_u64(&chars("")), None);
    assert_eq!(parse_u64(&chars("+")), None);
    assert_eq!(parse_u64(&chars("-1")), None);
    assert_eq!(parse_u64(&chars("1 ")), None);
    assert_eq!(parse_u64(&chars("1_0")), None);
    assert_eq!(parse_u32(&chars("4294967295")), Some(u32::MAX));
    assert_eq!(parse_u32(&chars("4294967296")), None);
    for sample in ["", "+", "+0", "12", "-3", "1e3", "٣"] {
        assert_eq!(parse_u64(&chars(sample)), sample.parse::<u64>().ok());
    }
}

#[test]
fn decimals() {
    assert_eq!(decimal("2.34"), Some(Decimal { negative: false, mantissa: 234, scale: 2 }));
    assert_eq!(decimal("-0.5"), Some(Decimal { negative: true, mantissa: 5, scale: 1 }));
    assert_eq!(decimal("+7"), Some(Decimal { negative: false, mantissa: 7, scale: 0 }));
    assert_eq!(decimal("5."), Some(Decimal { negative: false, mantissa: 5, scale: 0 }));
    assert_eq!(decimal(".5"), Some(Decimal { negative: false, mantissa: 5, scale: 1 }));
    assert_eq!(decimal("2000.000"), Some(Decimal { negative: false, mantissa: 2000000, scale: 3 }));
    assert_eq!(
        decimal("18446744073709551.615"),
        Some(Decimal { negative: false, mantissa: u64::MAX, scale: 3 })
    );
    assert_eq!(decimal("18446744073709551.616"), None);
    assert_eq!(decimal(""), None);
    assert_eq!(decimal("."), None);
    assert_eq!(decimal("-"), None);
    assert_eq!(decimal("1.2.3"), None);
    assert_eq!(decimal("1e3"), None);
    assert_eq!(decimal("inf"), None);
    assert_eq!(decimal("NaN"), None);
    assert_eq!(decimal("--1"), None);
    assert_eq!(decimal("1 "), None);
}

#[test]
fn decimals_rounded_toward_zero() {
    let d = decimal("12.99").unwrap();
    assert_eq!(d.magnitude(), 12);
    assert_eq!(d.to_u64(), 12);
    assert_eq!(d.to_u32(), 12);
    let d = decimal("-12.99").unwrap();
    assert_eq!(d.magnitude(), 12);
    assert_eq!(d.to_u64(), 0);
    assert_eq!(d.to_u32(), 0);
    let d = decimal("4294967296").unwrap();
    assert_eq!(d.to_u32(), u32::MAX);
    assert_eq!(d.to_u64(), 4294967296);
    let d = decimal("0.0000000000000000000000001").unwrap();
    assert_eq!(d.to_u64(), 0);
    let d = Decimal { negative: false, mantissa: 5, scale: u32::MAX };
    assert_eq!(d.to_u64(), 0);
}

#[test]
fn digits_of_numbers() {
    assert_eq!(u64_to_chars(0), chars("0"));
    assert_eq!(u64_to_chars(9), chars("9"));
    assert_eq!(u64_to_chars(10), chars("10"));
    assert_eq!(u64_to_chars(600), chars("600"));
    assert_eq!(u64_to_chars(u64::MAX), chars("18446744073709551615"));
    for n in [0u64, 1, 42, 1000, 987654321, u64::MAX - 1] {
        assert_eq!(parse_u64(&u64_to_chars(n)), Some(n));
    }
}
