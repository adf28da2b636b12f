use unc_jsonrpc::text::{same_text, write_decimal, write_signed_decimal};

#[test]
fn compares_texts() {
    assert!(same_text(&"query".to_string(), "query"));
    assert!(!same_text(&"query".to_string(), "Query"));
    assert!(!same_text(&"query".to_string(), "query "));
    assert!(same_text(&String::new(), ""));
}

#[test]
fn writes_decimals() {
    assert_eq!(write_decimal(0), "0");
    assert_eq!(write_decimal(9), "9");
    assert_eq!(write_decimal(10), "10");
    assert_eq!(write_decimal(1_234_567_890), "1234567890");
    assert_eq!(write_decimal(u64::MAX), "18446744073709551615");
}

#[test]
fn writes_signed_decimals() {
    assert_eq!(write_signed_decimal(0), "0");
    assert_eq!(write_signed_decimal(42), "42");
    assert_eq!(write_signed_decimal(-32000), "-32000");
    assert_eq!(write_signed_decimal(-1), "-1");
    assert_eq!(write_signed_decimal(i64::MIN), "-9223372036854775808");
    assert_eq!(write_signed_decimal(i64::MAX), "9223372036854775807");
}

#[test]
fn different_numbers_are_written_differently() {
    let mut written: Vec<String> = vec![];
    for n in [0u64, 1, 9, 10, 11, 19, 90, 99, 100, 101, 110, 999, 1000] {
        let text = write_decimal(n);
        assert!(!written.contains(&text));
        written.push(text);
    }
}
