use astrobiology::text::{digit_text, push_decimal, push_entry, push_hundredths, push_truth};

fn decimal(number: u64) -> String {
    let mut text = String::new();
    push_decimal(&mut text, number);
    text
}

fn hundredths(number: u64) -> String {
    let mut text = String::new();
    push_hundredths(&mut text, number);
    text
}

#[test]
fn decimal_has_no_leading_zeros() {
    assert_eq!(decimal(0), "0");
    assert_eq!(decimal(9), "9");
    assert_eq!(decimal(10), "10");
    assert_eq!(decimal(99), "99");
    assert_eq!(decimal(100), "100");
    assert_eq!(decimal(12345), "12345");
    assert_eq!(decimal(90_000_000), "90000000");
    assert_eq!(decimal(u64::MAX), "18446744073709551615");
    for number in 0..3000u64 {
        assert_eq!(decimal(number), format!("{}", number));
    }
}

#[test]
fn decimal_is_appended() {
    let mut text = String::from("n = ");
    push_decimal(&mut text, 42);
    push_decimal(&mut text, 7);
    assert_eq!(text, "n = 427");
}

#[test]
fn hundredths_are_written_short() {
    assert_eq!(hundredths(0), "0");
    assert_eq!(hundredths(1), "0.01");
    assert_eq!(hundredths(10), "0.1");
    assert_eq!(hundredths(45), "0.45");
    assert_eq!(hundredths(50), "0.5");
    assert_eq!(hundredths(100), "1");
    assert_eq!(hundredths(101), "1.01");
    assert_eq!(hundredths(145), "1.45");
    assert_eq!(hundredths(210), "2.1");
    assert_eq!(hundredths(31500), "315");
    assert_eq!(hundredths(31409), "314.09");
}

#[test]
fn digits_and_truth_values() {
    let digits = ["0", "1", "2", "3", "4", "5", "6", "7", "8", "9"];
    for digit in 0..10u64 {
        assert_eq!(digit_text(digit), digits[digit as usize]);
    }
    let mut text = String::new();
    push_truth(&mut text, true);
    push_truth(&mut text, false);
    assert_eq!(text, "truefalse");
}

#[test]
fn entry_is_label_place_and_space() {
    let mut text = String::new();
    push_entry(&mut text, "Rocky", 0);
    push_entry(&mut text, "GasGiant", 11);
    assert_eq!(text, "Rocky_0 GasGiant_11 ");
}
