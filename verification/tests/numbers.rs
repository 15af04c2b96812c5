use kugou_api::js::{from_json_text, number_is_zero, number_value, positive_decimal, to_json_text};
use kugou_api::json::JsonValue;

/// JavaScript `Number(text)` as the float parse computes it.
fn expected_number(text: &str) -> String {
    let value = text
        .trim()
        .parse::<f64>()
        .ok()
        .and_then(|value| {
            if value.fract() == 0.0 && value >= i64::MIN as f64 && value <= i64::MAX as f64 {
                Some(serde_json::Value::Number(serde_json::Number::from(value as i64)))
            } else {
                serde_json::Number::from_f64(value).map(serde_json::Value::Number)
            }
        })
        .unwrap_or_else(|| serde_json::Value::String("NaN".to_owned()));
    value.to_string()
}

fn library_number(text: &str) -> String {
    to_json_text(&number_value(JsonValue::text(text)))
}

#[test]
fn number_texts_read_as_the_float_parse_reads_them() {
    let cases = [
        "1", "1.5", "1.0", "1.50", "1e3", "1E3", "2.5e2", ".5", "+1.5", "01.5", "5.", "-0.0",
        "-0", "  7  ", "-12.25", "0.1", "1e-7", "123456789.125", "9007199254740993",
        "9007199254740995", "12345678901234567890", "9223372036854775807", "9223372036854775808",
        "-9223372036854775808", "-9223372036854775809", "1e19", "1e16", "1e15", "1e308", "1e400",
        "1e-400", "-1e-400", "inf", "nan", "abc", "", "1e", ".", "1.2.3", "0x10", "00000",
        "3.14159265358979323846", "2.5e-3", "1e+2", "1e-0", "100000000000000000000000",
    ];
    for text in cases {
        assert_eq!(library_number(text), expected_number(text), "Number({text:?})");
    }
}

#[test]
fn zero_tests_read_underflow_as_zero() {
    for (text, zero) in [("0", true), ("0.000", true), ("1e-400", true), ("-0e5", true), ("1", false), ("0.5", false), ("abc", false)] {
        assert_eq!(number_is_zero(Some(&JsonValue::text(text))), zero, "{text:?}");
        assert_eq!(text.trim().parse::<f64>() == Ok(0.0), zero, "{text:?}");
    }
}

#[test]
fn positive_tests_follow_the_float_parse() {
    for text in ["1", "0.5", "0", "-1", "1e-400", "1e400", "inf", "+Infinity", "-inf", "nan", ".5", "abc", " 1"] {
        let expected = text.parse::<f64>().is_ok_and(|value| value > 0.0);
        assert_eq!(positive_decimal(text), expected, "{text:?}");
    }
}

#[test]
fn float_readings_print_as_serde_json_prints_them() {
    let v = number_value(JsonValue::text("0.30"));
    assert_eq!(to_json_text(&v), "0.3");
    assert_eq!(kugou_api::js::js_string(&v), "0.3");
    let parsed = from_json_text("[1.5e300]").unwrap();
    let expected = serde_json::to_string(&serde_json::Value::Array(vec![serde_json::Value::from(1.5e300)])).unwrap();
    assert_eq!(to_json_text(&parsed), expected);
}

#[test]
fn long_and_extreme_number_texts_read_as_the_float_parse_reads_them() {
    let cases = [
        "0.1234567890123456789012", "1.7976931348623157e308", "1.7976931348623159e308",
        "2.2250738585072014e-308", "4.9e-324", "2.4703282292062328e-324", "2.4703282292062327e-324", "10000000000000000000",
        "123456789012345678901234567890e-10", "0.000000000000000000000000000001",
        "9007199254740993.0", "18446744073709551615", "-18446744073709551616",
        "1.0000000000000002", "0.30000000000000004", "123.456e-2",
    ];
    for text in cases {
        assert_eq!(library_number(text), expected_number(text), "Number({text:?})");
    }
}
