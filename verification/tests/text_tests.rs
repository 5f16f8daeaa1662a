use sysreport::text::{absent, append_decimal, decimal, labelled, measured, optional, present};

#[test]
fn decimal_of_zero_is_a_single_digit() {
    assert_eq!(decimal(0), "0");
}

#[test]
fn decimal_of_single_digits() {
    let expected = ["0", "1", "2", "3", "4", "5", "6", "7", "8", "9"];
    for (n, text) in expected.iter().enumerate() {
        assert_eq!(decimal(n as u64), *text);
    }
}

#[test]
fn decimal_keeps_inner_and_trailing_zeros() {
    assert_eq!(decimal(10), "10");
    assert_eq!(decimal(100), "100");
    assert_eq!(decimal(1005), "1005");
    assert_eq!(decimal(90210), "90210");
}

#[test]
fn decimal_of_the_largest_value() {
    assert_eq!(decimal(u64::MAX), "18446744073709551615");
}

#[test]
fn decimal_agrees_with_the_standard_formatting() {
    let samples = [
        0u64,
        9,
        10,
        11,
        99,
        100,
        101,
        4095,
        65535,
        1_000_000,
        16_777_216,
        4_294_967_295,
        4_294_967_296,
        17_179_869_184,
        999_999_999_999,
        u64::MAX - 1,
        u64::MAX,
    ];
    for n in samples {
        assert_eq!(decimal(n), format!("{}", n));
    }
}

#[test]
fn append_decimal_keeps_what_was_there() {
    let mut s = String::from("pid ");
    append_decimal(&mut s, 4711);
    assert_eq!(s, "pid 4711");
    append_decimal(&mut s, 0);
    assert_eq!(s, "pid 47110");
}

#[test]
fn measured_puts_the_number_between_label_and_unit() {
    assert_eq!(measured("total memory: ", 1024, " bytes"), "total memory: 1024 bytes");
    assert_eq!(measured("", 7, ""), "7");
}

#[test]
fn labelled_joins_label_and_value() {
    assert_eq!(labelled("Platform: ", "Portable Computing Language"), "Platform: Portable Computing Language");
    assert_eq!(labelled("Platform: ", ""), "Platform: ");
}

#[test]
fn absent_is_the_marker() {
    assert_eq!(absent(), "None");
}

#[test]
fn present_wraps_the_quoted_value() {
    assert_eq!(present("\"Linux\""), "Some(\"Linux\")");
    assert_eq!(present(""), "Some()");
}

#[test]
fn optional_of_nothing_is_the_marker() {
    assert_eq!(optional(&None), "None");
}

#[test]
fn optional_of_a_value_is_quoted() {
    assert_eq!(optional(&Some(String::from("Linux"))), "Some(\"Linux\")");
    assert_eq!(optional(&Some(String::from("6.8.0-45-generic"))), "Some(\"6.8.0-45-generic\")");
    assert_eq!(optional(&Some(String::new())), "Some(\"\")");
}

#[test]
fn optional_escapes_what_would_break_the_line() {
    assert_eq!(optional(&Some(String::from("a\"b"))), "Some(\"a\\\"b\")");
    assert_eq!(optional(&Some(String::from("two\nlines"))), "Some(\"two\\nlines\")");
    assert_eq!(optional(&Some(String::from("back\\slash"))), "Some(\"back\\\\slash\")");
}

#[test]
fn optional_agrees_with_the_standard_formatting() {
    let samples = [
        None,
        Some(String::from("Ubuntu")),
        Some(String::from("it's")),
        Some(String::from("tab\there")),
        Some(String::from("caf\u{e9}")),
        Some(String::from("\u{301}combining")),
        Some(String::from("\u{7f}")),
    ];
    for value in samples {
        assert_eq!(optional(&value), format!("{:?}", value));
    }
}
