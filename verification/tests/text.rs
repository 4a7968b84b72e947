use doca_bot::json::{bot_verify_request, client_update_request, render_text};
use doca_bot::text::{decimal_text, parse_i64, trim};

#[test]
fn decimal_text_of_numbers() {
    assert_eq!(decimal_text(0), "0");
    assert_eq!(decimal_text(7), "7");
    assert_eq!(decimal_text(10), "10");
    assert_eq!(decimal_text(-1), "-1");
    assert_eq!(decimal_text(1234567890), "1234567890");
    assert_eq!(decimal_text(i64::MAX), "9223372036854775807");
    assert_eq!(decimal_text(i64::MIN), "-9223372036854775808");
}

#[test]
fn parse_reads_signed_decimals() {
    assert_eq!(parse_i64("0"), Some(0));
    assert_eq!(parse_i64("42"), Some(42));
    assert_eq!(parse_i64("+42"), Some(42));
    assert_eq!(parse_i64("-42"), Some(-42));
    assert_eq!(parse_i64("007"), Some(7));
    assert_eq!(parse_i64("9223372036854775807"), Some(i64::MAX));
    assert_eq!(parse_i64("-9223372036854775808"), Some(i64::MIN));
}

#[test]
fn parse_refuses_what_is_no_number() {
    assert_eq!(parse_i64(""), None);
    assert_eq!(parse_i64("-"), None);
    assert_eq!(parse_i64("+"), None);
    assert_eq!(parse_i64("12a"), None);
    assert_eq!(parse_i64(" 12"), None);
    assert_eq!(parse_i64("1-2"), None);
    assert_eq!(parse_i64("--1"), None);
    assert_eq!(parse_i64("٣"), None);
    assert_eq!(parse_i64("9223372036854775808"), None);
    assert_eq!(parse_i64("-9223372036854775809"), None);
    assert_eq!(parse_i64("99999999999999999999999999999999999999999999"), None);
}

#[test]
fn parse_agrees_with_the_standard_library() {
    for text in ["5", "-5", "+5", "", "x", "00", "-0", "18446744073709551616", "1e3", "1.0"] {
        assert_eq!(parse_i64(text), text.parse::<i64>().ok(), "for {:?}", text);
    }
}

#[test]
fn decimal_text_reads_back() {
    for n in [0i64, 1, -1, 99, -100, i64::MAX, i64::MIN, 5_000_000_000] {
        assert_eq!(parse_i64(&decimal_text(n)), Some(n));
        assert_eq!(decimal_text(n), n.to_string());
    }
}

#[test]
fn trim_removes_the_white_space_around() {
    assert_eq!(trim("  secret \n"), "secret");
    assert_eq!(trim("pass word"), "pass word");
    assert_eq!(trim("\t a b \r\n"), "a b");
    assert_eq!(trim(""), "");
    assert_eq!(trim(" \n\t "), "");
    assert_eq!(trim("x"), "x");
    assert_eq!(trim("\u{3000}é\u{a0}"), "é");
}

#[test]
fn text_is_rendered_as_a_json_string() {
    assert_eq!(render_text(&"123".to_string()), Some("\"123\"".to_string()));
    assert_eq!(render_text(&"a\"b\\c".to_string()), Some("\"a\\\"b\\\\c\"".to_string()));
    assert_eq!(render_text(&"line\nbreak".to_string()), Some("\"line\\nbreak\"".to_string()));
    assert_eq!(render_text(&String::new()), Some("\"\"".to_string()));
}

#[test]
fn verify_call_has_the_fixed_shape() {
    let call = bot_verify_request(&"http://api".to_string(), &"\"77\"".to_string());
    assert_eq!(call.api_url, "http://api");
    assert_eq!(call.object, "visits");
    assert_eq!(call.command, "bot_verify");
    assert_eq!(call.data, "{\"context\":{\"bot\":true,\"user_id\":\"77\"}}");
}

#[test]
fn client_update_call_has_the_fixed_shape() {
    let call = client_update_request(&"http://api".to_string(), &"\"c1\"".to_string(), -5);
    assert_eq!(call.api_url, "http://api");
    assert_eq!(call.object, "clients");
    assert_eq!(call.command, "update");
    assert_eq!(call.data, "{\"id\":\"c1\",\"telegram_id\":-5}");
}
