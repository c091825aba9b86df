use cxx_qt_gen::invokable::{decimal_string, say_hi_line};

#[test]
fn decimal_of_small_numbers() {
    assert_eq!(decimal_string(0), "0");
    assert_eq!(decimal_string(7), "7");
    assert_eq!(decimal_string(10), "10");
    assert_eq!(decimal_string(-1), "-1");
    assert_eq!(decimal_string(-120), "-120");
    assert_eq!(decimal_string(1024), "1024");
}

#[test]
fn decimal_of_the_ends_of_the_range() {
    assert_eq!(decimal_string(i32::MAX), "2147483647");
    assert_eq!(decimal_string(i32::MIN), "-2147483648");
}

#[test]
fn decimal_is_what_the_formatter_writes() {
    for number in [-100_000, -99, -10, -9, 0, 9, 99, 100, 101, 65_535, 1_000_000_007] {
        assert_eq!(decimal_string(number), format!("{}", number));
    }
}

#[test]
fn say_hi_line_holds_the_string_and_the_number() {
    assert_eq!(
        say_hi_line("hello", 32),
        "Hi from Rust! String is hello and number is 32"
    );
    assert_eq!(
        say_hi_line("", -5),
        "Hi from Rust! String is  and number is -5"
    );
    assert_eq!(
        say_hi_line("a b", i32::MIN),
        format!("Hi from Rust! String is {} and number is {}", "a b", i32::MIN)
    );
}
