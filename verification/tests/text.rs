use wasm_wrapper_gen::text::{decimal_string, push_decimal, str_eq};

#[test]
fn numbers_are_written_in_decimal() {
    assert_eq!(decimal_string(0), "0");
    assert_eq!(decimal_string(7), "7");
    assert_eq!(decimal_string(9), "9");
    assert_eq!(decimal_string(10), "10");
    assert_eq!(decimal_string(12), "12");
    assert_eq!(decimal_string(109), "109");
    assert_eq!(decimal_string(4294967295), "4294967295");
    assert_eq!(decimal_string(u64::MAX), "18446744073709551615");
}

#[test]
fn a_number_is_appended_to_what_is_there() {
    let mut out = String::from("arg");
    push_decimal(&mut out, 42);
    assert_eq!(out, "arg42");
    push_decimal(&mut out, 0);
    assert_eq!(out, "arg420");
}

#[test]
fn decimal_agrees_with_the_standard_rendering() {
    for n in [0u64, 1, 5, 10, 11, 99, 100, 101, 999, 1000, 65535, 65536, 1 << 40] {
        assert_eq!(decimal_string(n), format!("{}", n));
    }
}

#[test]
fn strings_are_compared_by_their_characters() {
    assert!(str_eq("u8", "u8"));
    assert!(!str_eq("u8", "u16"));
    assert!(!str_eq("u8", "u8 "));
    assert!(str_eq("", ""));
    assert!(!str_eq("", "a"));
    assert!(str_eq("héllo", "héllo"));
}
