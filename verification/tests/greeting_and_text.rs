use imalink_desktop::greeting::greet;
use imalink_desktop::text::{integer_text, join, natural_text, same_text};

#[test]
fn greet_wraps_the_name() {
    assert_eq!(greet("Ada"), "Hello, Ada! You've been greeted from Rust!");
}

#[test]
fn greet_accepts_an_empty_name() {
    assert_eq!(greet(""), "Hello, ! You've been greeted from Rust!");
}

#[test]
fn greet_keeps_non_ascii_names() {
    assert_eq!(greet("Bjørn"), "Hello, Bjørn! You've been greeted from Rust!");
}

#[test]
fn natural_text_writes_decimal_digits() {
    assert_eq!(natural_text(0), "0");
    assert_eq!(natural_text(7), "7");
    assert_eq!(natural_text(10), "10");
    assert_eq!(natural_text(8765), "8765");
    assert_eq!(natural_text(u32::MAX), "4294967295");
}

#[test]
fn natural_text_agrees_with_the_standard_rendering() {
    let mut n: u32 = 0;
    while n < 3000 {
        assert_eq!(natural_text(n), format!("{}", n));
        n += 1;
    }
}

#[test]
fn integer_text_writes_the_sign() {
    assert_eq!(integer_text(0), "0");
    assert_eq!(integer_text(1), "1");
    assert_eq!(integer_text(-1), "-1");
    assert_eq!(integer_text(-12), "-12");
    assert_eq!(integer_text(137), "137");
    assert_eq!(integer_text(i32::MAX), "2147483647");
    assert_eq!(integer_text(i32::MIN), "-2147483648");
}

#[test]
fn join_appends_the_tail() {
    assert_eq!(join("ab", "cd"), "abcd");
    assert_eq!(join("", "cd"), "cd");
    assert_eq!(join("ab", ""), "ab");
}

#[test]
fn same_text_compares_every_character() {
    assert!(same_text("", ""));
    assert!(same_text("jpg", "jpg"));
    assert!(!same_text("jpg", "jpeg"));
    assert!(!same_text("jpg", "jpG"));
    assert!(!same_text("jpg", ""));
    assert!(same_text("blåbær", "blåbær"));
    assert!(!same_text("blåbær", "blabær"));
}
