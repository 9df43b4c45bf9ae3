use sidecar_supervisor::greeting::greet;
use sidecar_supervisor::text::decimal;

#[test]
fn decimal_of_single_digits() {
    assert_eq!(decimal(0), "0");
    assert_eq!(decimal(7), "7");
    assert_eq!(decimal(9), "9");
}

#[test]
fn decimal_of_round_numbers() {
    assert_eq!(decimal(10), "10");
    assert_eq!(decimal(100), "100");
    assert_eq!(decimal(1000), "1000");
}

#[test]
fn decimal_of_ports() {
    assert_eq!(decimal(8765), "8765");
    assert_eq!(decimal(8799), "8799");
    assert_eq!(decimal(65535), "65535");
}

#[test]
fn decimal_of_the_largest_number() {
    assert_eq!(decimal(u64::MAX), "18446744073709551615");
}

#[test]
fn decimal_agrees_with_the_standard_rendering() {
    let mut n: u64 = 0;
    while n < 20000 {
        assert_eq!(decimal(n), n.to_string());
        n += 1;
    }
}

#[test]
fn greeting_names_the_caller() {
    assert_eq!(greet("Ada"), "Hello, Ada! You've been greeted from Rust!");
}

#[test]
fn greeting_of_nobody() {
    assert_eq!(greet(""), "Hello, ! You've been greeted from Rust!");
}
