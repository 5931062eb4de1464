use minisql::text::{
    digits_within, is_decimal_text, is_exponent_text, is_float_text, is_number_text,
    is_signed_text, is_special_float, is_unsigned_text, only_point, skip_digits,
};

#[test]
fn unsigned_text_is_digits_that_fit() {
    assert!(is_unsigned_text(b"0"));
    assert!(is_unsigned_text(b"+0"));
    assert!(is_unsigned_text(b"18446744073709551615"));
    assert!(is_unsigned_text(b"00018446744073709551615"));
    assert!(!is_unsigned_text(b"18446744073709551616"));
    assert!(!is_unsigned_text(b"99999999999999999999"));
    assert!(!is_unsigned_text(b"184467440737095516150"));
    assert!(!is_unsigned_text(b""));
    assert!(!is_unsigned_text(b"+"));
    assert!(!is_unsigned_text(b"-0"));
    assert!(!is_unsigned_text(b"++1"));
    assert!(!is_unsigned_text(b"1_000"));
    assert!(!is_unsigned_text(b" 1"));
    assert!(!is_unsigned_text(b"1 "));
    assert!(!is_unsigned_text(b"0x10"));
}

#[test]
fn signed_text_is_digits_that_fit_with_their_sign() {
    assert!(is_signed_text(b"0"));
    assert!(is_signed_text(b"-0"));
    assert!(is_signed_text(b"+9223372036854775807"));
    assert!(is_signed_text(b"-9223372036854775808"));
    assert!(!is_signed_text(b"9223372036854775808"));
    assert!(!is_signed_text(b"-9223372036854775809"));
    assert!(!is_signed_text(b"-"));
    assert!(!is_signed_text(b"--1"));
    assert!(!is_signed_text(b"-+1"));
    assert!(!is_signed_text(b"1.0"));
}

#[test]
fn digits_within_a_limit() {
    assert!(digits_within(b"x123", 1, 123));
    assert!(!digits_within(b"x123", 1, 122));
    assert!(!digits_within(b"x123", 4, 122));
    assert!(!digits_within(b"x12y", 1, 1000));
    assert!(digits_within(b"0000009", 0, 9));
}

#[test]
fn skip_digits_stops_at_the_first_other_byte() {
    assert_eq!(skip_digits(b"123abc", 0), 3);
    assert_eq!(skip_digits(b"123abc", 1), 3);
    assert_eq!(skip_digits(b"123abc", 3), 3);
    assert_eq!(skip_digits(b"123", 0), 3);
    assert_eq!(skip_digits(b"", 0), 0);
}

#[test]
fn float_text_follows_the_grammar() {
    for ok in [
        "1", "1.", ".5", "1.5", "-1.5", "+1.5", "1e5", "1E5", "1e+5", "1e-5", "1.e5", ".5e5",
        "inf", "-inf", "+Infinity", "NaN", "nan", "INF", "0000.0000",
    ] {
        assert!(is_float_text(ok.as_bytes()), "{}", ok);
    }
    for bad in [
        "", ".", "+", "-", "e5", "1e", "1e+", ".e5", "1.5.5", "1,5", " 1", "1 ", "1f", "infinit",
        "infinityy", "na", "--1", "1e5.5", "0x10", "1_0",
    ] {
        assert!(!is_float_text(bad.as_bytes()), "{}", bad);
    }
}

#[test]
fn float_text_agrees_with_the_parser_of_std() {
    for text in [
        "1", "1.", ".5", "-.5", "+5.", "1e5", "1E-5", "1e", "e1", ".", "", "inf", "nan", "NAN",
        "iNfInItY", "infinite", "1.2.3", "12a", "+-1", "1e+", "1e++1", "٣", "1.5e3", "..",
    ] {
        assert_eq!(is_float_text(text.as_bytes()), text.parse::<f64>().is_ok(), "{}", text);
    }
}

#[test]
fn integer_text_agrees_with_the_parser_of_std() {
    for text in [
        "0", "-0", "+0", "42", "-42", "+42", "", "+", "-", "9223372036854775807",
        "9223372036854775808", "-9223372036854775808", "-9223372036854775809",
        "18446744073709551615", "18446744073709551616", "1a", " 1", "1 ", "1_0", "--1", "٣",
    ] {
        assert_eq!(is_signed_text(text.as_bytes()), text.parse::<i64>().is_ok(), "{}", text);
        assert_eq!(is_unsigned_text(text.as_bytes()), text.parse::<u64>().is_ok(), "{}", text);
    }
}

#[test]
fn parts_of_the_float_grammar() {
    assert!(is_special_float(b"xinf", 1));
    assert!(!is_special_float(b"xinf", 0));
    assert!(is_special_float(b"iNfInItY", 0));
    assert!(is_exponent_text(b"1e-10", 2));
    assert!(!is_exponent_text(b"1e-", 2));
    assert!(!is_exponent_text(b"1e-1x", 2));
    assert!(is_number_text(b"-1.5", 1));
    assert!(!is_number_text(b"-1.5", 0));
}

#[test]
fn only_point_finds_the_one_point() {
    assert_eq!(only_point(b"12.5"), Some(2));
    assert_eq!(only_point(b".5"), Some(0));
    assert_eq!(only_point(b"5."), Some(1));
    assert_eq!(only_point(b"125"), None);
    assert_eq!(only_point(b"1.2.5"), None);
    assert_eq!(only_point(b""), None);
}

#[test]
fn decimal_text_is_within_precision_and_scale() {
    assert!(is_decimal_text(b"123.45", 5, Some(2)));
    assert!(!is_decimal_text(b"123.456", 5, Some(2)));
    assert!(!is_decimal_text(b"123.456", 6, Some(2)));
    assert!(is_decimal_text(b"123.456", 6, Some(3)));
    assert!(is_decimal_text(b"123.456", 6, None));
    assert!(!is_decimal_text(b"123.456", 5, None));
    assert!(is_decimal_text(b"-1.5", 3, Some(1)));
    assert!(!is_decimal_text(b"-1.5", 2, Some(1)));
    assert!(is_decimal_text(b"1.", 1, Some(0)));
    assert!(!is_decimal_text(b"inf", 18, None));
    assert!(!is_decimal_text(b"15", 18, None));
}

/// Every text of at most `n` letters of `alphabet`.
fn texts(alphabet: &[char], n: usize) -> Vec<String> {
    let mut all = vec![String::new()];
    let mut last = vec![String::new()];
    for _ in 0..n {
        let mut next = Vec::new();
        for text in &last {
            for c in alphabet {
                let mut longer = text.clone();
                longer.push(*c);
                next.push(longer);
            }
        }
        all.extend(next.iter().cloned());
        last = next;
    }
    all
}

#[test]
fn float_text_agrees_with_std_on_every_short_text() {
    let alphabet = ['+', '-', '.', 'e', 'E', '0', '7', 'i', 'n', 'f', 'a', 'N'];
    for text in texts(&alphabet, 5) {
        assert_eq!(is_float_text(text.as_bytes()), text.parse::<f64>().is_ok(), "{:?}", text);
    }
}

#[test]
fn float_text_agrees_with_std_on_long_words() {
    let alphabet = ['i', 'n', 'f', 't', 'y', 'I'];
    for text in texts(&alphabet, 8).into_iter().filter(|t| t.len() >= 6) {
        assert_eq!(is_float_text(text.as_bytes()), text.parse::<f64>().is_ok(), "{:?}", text);
        let signed = format!("-{}", text);
        assert_eq!(is_float_text(signed.as_bytes()), signed.parse::<f64>().is_ok(), "{:?}", signed);
    }
}

#[test]
fn integer_text_agrees_with_std_on_every_short_text() {
    let alphabet = ['+', '-', '0', '1', '9', '.', ' ', 'a'];
    for text in texts(&alphabet, 6) {
        assert_eq!(is_signed_text(text.as_bytes()), text.parse::<i64>().is_ok(), "{:?}", text);
        assert_eq!(is_unsigned_text(text.as_bytes()), text.parse::<u64>().is_ok(), "{:?}", text);
    }
}

#[test]
fn integer_text_agrees_with_std_near_the_bounds() {
    let tails = texts(&['0', '5', '6', '7', '8', '9'], 3);
    for head in ["92233720368547758", "-92233720368547758", "184467440737095516", "+1844674407370955"] {
        for tail in &tails {
            let text = format!("{}{}", head, tail);
            assert_eq!(is_signed_text(text.as_bytes()), text.parse::<i64>().is_ok(), "{:?}", text);
            assert_eq!(is_unsigned_text(text.as_bytes()), text.parse::<u64>().is_ok(), "{:?}", text);
        }
    }
}

#[test]
fn decimal_text_agrees_with_its_definition_on_every_short_text() {
    let alphabet = ['+', '-', '.', 'e', '0', '7', 'n', 'a'];
    for text in texts(&alphabet, 6) {
        let parts: Vec<&str> = text.split(".").collect();
        for (precision, scale) in [(3, None), (5, Some(2)), (5, Some(0)), (0, None), (9, Some(9))] {
            let expected = text.parse::<f64>().is_ok()
                && parts.len() == 2
                && (text.len() - 1) as u64 <= precision
                && scale.map_or(true, |s| parts[1].len() as u64 <= s);
            assert_eq!(is_decimal_text(text.as_bytes(), precision, scale), expected, "{:?}", text);
        }
    }
}
