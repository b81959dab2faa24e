use nixbitcoin_config::utils::{push_decimal, AutoLineString};

fn decimal_of(n: u32) -> String {
    let mut out = String::new();
    push_decimal(&mut out, n);
    out
}

#[test]
fn decimal_of_single_digits() {
    assert_eq!(decimal_of(0), "0");
    assert_eq!(decimal_of(7), "7");
    assert_eq!(decimal_of(9), "9");
}

#[test]
fn decimal_of_larger_numbers() {
    assert_eq!(decimal_of(10), "10");
    assert_eq!(decimal_of(551), "551");
    assert_eq!(decimal_of(1024), "1024");
    assert_eq!(decimal_of(65535), "65535");
    assert_eq!(decimal_of(1_000_000), "1000000");
    assert_eq!(decimal_of(u32::MAX), "4294967295");
}

#[test]
fn decimal_agrees_with_std_formatting() {
    for n in [0u32, 1, 9, 10, 11, 99, 100, 101, 999, 1000, 9333, 40960, 123456789] {
        assert_eq!(decimal_of(n), format!("{}", n));
    }
}

#[test]
fn push_decimal_appends_to_what_is_there() {
    let mut out = String::from("prune = ");
    push_decimal(&mut out, 2048);
    out.push(';');
    assert_eq!(out, "prune = 2048;");
}

#[test]
fn auto_line_string_closes_every_line() {
    let mut text = AutoLineString::from("{");
    assert_eq!(text.to_string(), "{\n");
    text.push_line("a = 1;");
    text.push_line("");
    text.push_line("}");
    assert_eq!(text.to_string(), "{\na = 1;\n\n}\n");
}

#[test]
fn auto_line_string_keeps_line_feeds_inside_a_line() {
    let mut text = AutoLineString::from("first");
    text.push_line("second\nthird");
    assert_eq!(text.to_string(), "first\nsecond\nthird\n");
}
