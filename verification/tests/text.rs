use mindat_rs::decimal::is_literal;
use mindat_rs::text::{format_i32, format_i64, parse_i16, parse_i32, parse_i64, parse_u32, parse_u64};
use mindat_rs::Decimal;

const INTEGER_TEXTS: [&str; 44] = [
    "", "0", "7", "+7", "-7", "-0", "+0", "007", "-007", "+", "-", "--1", "+-1", "1-", " 1", "1 ",
    "1_000", "0x10", "12a", "a12", "1.0", "1e3", "٣", "１２", "2147483647", "2147483648",
    "-2147483648", "-2147483649", "32767", "32768", "-32768", "-32769", "4294967295", "4294967296",
    "9223372036854775807", "9223372036854775808", "-9223372036854775808", "-9223372036854775809",
    "18446744073709551615", "18446744073709551616", "000000000000000000000000000000000000012",
    "99999999999999999999999999999", "-99999999999999999999999999999", "+2147483647",
];

#[test]
fn integers_are_read_as_the_standard_library_reads_them() {
    for text in INTEGER_TEXTS {
        assert_eq!(parse_i32(text), text.parse::<i32>().ok(), "i32 from {:?}", text);
        assert_eq!(parse_i16(text), text.parse::<i16>().ok(), "i16 from {:?}", text);
        assert_eq!(parse_i64(text), text.parse::<i64>().ok(), "i64 from {:?}", text);
        assert_eq!(parse_u32(text), text.parse::<u32>().ok(), "u32 from {:?}", text);
        assert_eq!(parse_u64(text), text.parse::<u64>().ok(), "u64 from {:?}", text);
    }
}

#[test]
fn a_literal_is_read_with_its_sign() {
    assert_eq!(parse_i32("42"), Some(42));
    assert_eq!(parse_i32("-42"), Some(-42));
    assert_eq!(parse_i32("+42"), Some(42));
    assert_eq!(parse_u32("-42"), None);
    assert_eq!(parse_i32(""), None);
}

#[test]
fn integers_are_written_in_decimal() {
    let samples: [i64; 13] = [
        0, 1, -1, 9, 10, -10, 12345, -12345, 2147483647, -2147483648, 9223372036854775807,
        -9223372036854775808, 1000000,
    ];
    for n in samples {
        assert_eq!(format_i64(n), n.to_string());
    }
    assert_eq!(format_i32(0), "0");
    assert_eq!(format_i32(-50), "-50");
    assert_eq!(format_i32(i32::MIN), "-2147483648");
    assert_eq!(format_i32(i32::MAX), "2147483647");
}

#[test]
fn what_is_written_is_read_back() {
    for n in [0, 1, -1, 99, -100, i32::MAX, i32::MIN] {
        assert_eq!(parse_i32(&format_i32(n)), Some(n));
    }
}

fn real_texts() -> Vec<String> {
    let mut texts: Vec<String> = Vec::new();
    let fixed = [
        "", "+", "-", ".", "+.", "-.", "e", "e5", "1e", "1e+", "1e-", "1e5", "1E5", "1e+5", "1e-5",
        "1.e5", ".5e5", ".e5", "1.5", "1.", ".5", "5", "-5", "+5", "007", "7.0", "7.5", "6.0", "-19.0",
        "-44.0", "inf", "-inf", "+inf", "INF", "Inf", "infinity", "INFINITY", "-Infinity", "infinit",
        "infinityy", "nan", "NaN", "NAN", "-nan", "+nan", "na", "nann", " 1", "1 ", "1_0", "0x10",
        "1.5f", "1..5", "1.5.5", "1e5e5", "1e5.5", "--1", "+-1", "1-", "١", "1e５", "İnf", "ınf",
        "1e400", "1e-400", "123456789012345678901234567890", "0.000000000000000000000001",
        "1.7976931348623157e308", "4.9e-324", "abc", "7,5", "7.5 ", "\t7.5", "١.٥",
    ];
    for t in fixed {
        texts.push(t.to_string());
    }
    let parts = ["", "+", "-", "1", "23", ".", "e", "E", "inf", "nan", "x"];
    for a in parts {
        for b in parts {
            for c in parts {
                for d in parts {
                    texts.push(format!("{}{}{}{}", a, b, c, d));
                }
            }
        }
    }
    texts
}

#[test]
fn real_literals_are_those_that_the_standard_library_reads() {
    for text in real_texts() {
        assert_eq!(is_literal(&text), text.parse::<f64>().is_ok(), "double from {:?}", text);
        assert_eq!(is_literal(&text), text.parse::<f32>().is_ok(), "single from {:?}", text);
        assert_eq!(Decimal::parse(&text).is_some(), is_literal(&text));
    }
}

#[test]
fn a_decimal_keeps_its_literal() {
    let d = Decimal::parse("7.5").unwrap();
    assert_eq!(d.as_str(), "7.5");
    assert_eq!(d.to_string(), "7.5");
    assert_eq!(d.clone(), d);
    assert_eq!(d.as_str().parse::<f64>().unwrap(), 7.5);
    assert!(Decimal::parse("seven").is_none());
    assert!(Decimal::parse("").is_none());
}
