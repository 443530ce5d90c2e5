use chain_ingest::text::{
    chars_of, decimal, number, parse_u64, same_text, split, string_of, strip_char, trim,
};

fn cs(s: &str) -> Vec<char> {
    s.chars().collect()
}

fn fields(s: &str, sep: &str) -> Vec<String> {
    split(&cs(s), &cs(sep)).iter().map(|f| f.iter().collect::<String>()).collect()
}

#[test]
fn chars_and_strings_convert_both_ways() {
    assert_eq!(chars_of("a, b"), vec!['a', ',', ' ', 'b']);
    assert_eq!(string_of(&vec!['a', 'b', 'c']), "abc");
    assert_eq!(string_of(&Vec::new()), "");
    assert_eq!(string_of(&chars_of("https://пул.гост.рус")), "https://пул.гост.рус");
}

#[test]
fn same_text_compares_characters() {
    assert!(same_text("abc", "abc"));
    assert!(!same_text("abc", "abd"));
    assert!(!same_text("abc", "ab"));
    assert!(same_text("", ""));
}

#[test]
fn split_cuts_at_each_separator() {
    assert_eq!(fields("42, 1", ", "), vec!["42", "1"]);
    assert_eq!(fields("a, b, c", ", "), vec!["a", "b", "c"]);
    assert_eq!(fields("getblock abc 2 true", " "), vec!["getblock", "abc", "2", "true"]);
}

#[test]
fn split_keeps_empty_fields() {
    assert_eq!(fields("", ", "), vec![""]);
    assert_eq!(fields("a, ", ", "), vec!["a", ""]);
    assert_eq!(fields(", a", ", "), vec!["", "a"]);
    assert_eq!(fields(", , ", ", "), vec!["", "", ""]);
    assert_eq!(fields("a,b", ", "), vec!["a,b"]);
}

#[test]
fn split_with_empty_separator_gives_the_whole_text() {
    assert_eq!(fields("a,b", ""), vec!["a,b"]);
}

#[test]
fn split_agrees_with_the_standard_split() {
    for text in ["", "a", "a, b", ", ", ",, ", "a, , b, ", " ,a", "1, 2, 3"] {
        let expected: Vec<String> = text.split(", ").map(|f| f.to_string()).collect();
        assert_eq!(fields(text, ", "), expected);
    }
    for text in ["", " ", "a b", "a  b", " a b "] {
        let expected: Vec<String> = text.split(' ').map(|f| f.to_string()).collect();
        assert_eq!(fields(text, " "), expected);
    }
}

#[test]
fn parse_u64_reads_numerals() {
    assert_eq!(parse_u64(&cs("42")), Some(42));
    assert_eq!(parse_u64(&cs("+7")), Some(7));
    assert_eq!(parse_u64(&cs("007")), Some(7));
    assert_eq!(parse_u64(&cs("0")), Some(0));
    assert_eq!(parse_u64(&cs("18446744073709551615")), Some(u64::MAX));
}

#[test]
fn parse_u64_rejects_what_is_no_numeral() {
    assert_eq!(parse_u64(&cs("")), None);
    assert_eq!(parse_u64(&cs("+")), None);
    assert_eq!(parse_u64(&cs("-1")), None);
    assert_eq!(parse_u64(&cs("4 2")), None);
    assert_eq!(parse_u64(&cs("42%")), None);
    assert_eq!(parse_u64(&cs("++1")), None);
    assert_eq!(parse_u64(&cs("18446744073709551616")), None);
    assert_eq!(parse_u64(&cs("99999999999999999999999")), None);
}

#[test]
fn parse_u64_agrees_with_the_standard_reader() {
    for text in ["", "+", "-", "1", "+1", "-0", "00", "1a", "18446744073709551615",
        "18446744073709551616", "184467440737095516150", " 1", "1 "] {
        assert_eq!(parse_u64(&cs(text)), text.parse::<u64>().ok());
    }
}

#[test]
fn decimal_writes_numerals() {
    assert_eq!(string_of(&decimal(0)), "0");
    assert_eq!(string_of(&decimal(9)), "9");
    assert_eq!(string_of(&decimal(10)), "10");
    assert_eq!(string_of(&decimal(710800)), "710800");
    assert_eq!(string_of(&decimal(u64::MAX)), "18446744073709551615");
}

#[test]
fn decimal_then_parse_gives_the_number_back() {
    for n in [0u64, 1, 9, 10, 99, 100, 710800, 2147483647, u64::MAX] {
        assert_eq!(parse_u64(&decimal(n)), Some(n));
    }
}

#[test]
fn strip_char_takes_every_occurrence_out() {
    assert_eq!(string_of(&strip_char(&cs("12%"), '%')), "12");
    assert_eq!(string_of(&strip_char(&cs("%1%2%"), '%')), "12");
    assert_eq!(string_of(&strip_char(&cs("\"height_end\""), '"')), "height_end");
    assert_eq!(string_of(&strip_char(&cs(""), '%')), "");
}

#[test]
fn trim_takes_white_space_off_both_ends() {
    assert_eq!(string_of(&trim(&cs(" \t42\n"))), "42");
    assert_eq!(string_of(&trim(&cs("4 2"))), "4 2");
    assert_eq!(string_of(&trim(&cs("   "))), "");
    assert_eq!(string_of(&trim(&cs(""))), "");
    assert_eq!(string_of(&trim(&cs("\u{2003}x\u{a0}"))), "x");
}

#[test]
fn trim_agrees_with_the_standard_trim() {
    for text in ["", " ", "a", " a", "a ", " a b ", "\u{3000}z\u{1680}", "\u{200b}z"] {
        assert_eq!(string_of(&trim(&cs(text))), text.trim());
    }
}

#[test]
fn number_takes_decimal_fractions() {
    for text in ["34.56", "0", "5.", ".5", "1e3", "1E-3", "+.5e+3", "-12.5", "inf", "-Infinity",
        "NaN", "+nan"] {
        assert!(number(&cs(text)), "{}", text);
    }
}

#[test]
fn number_rejects_what_is_no_number() {
    for text in ["", ".", "+", "e3", "1e", "1e+", "1.2.3", "12abc", " 1", "1 ", "infinit", "0x10",
        "1,5", "--1"] {
        assert!(!number(&cs(text)), "{}", text);
    }
}

#[test]
fn number_agrees_with_the_standard_reader() {
    for text in ["", ".", "+", "-", "e", "1", "1.", ".1", "1.1", "1e1", "1e", "1.e1", ".e1", ".1e1",
        "+1", "-1", "+-1", "1e+1", "1e-1", "1e+-1", "inf", "INF", "infinity", "iNfInItY", "nan", "NAN",
        "-nan", "in", "infi", "nann", "1f", "1_0", "٣"] {
        assert_eq!(number(&cs(text)), text.parse::<f64>().is_ok(), "{}", text);
    }
}
