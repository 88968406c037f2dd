use rust_dev::line::{
    is_timestamp_text, push_decimal, LineRecord, TRANSACTION_ID_MAX, TRANSACTION_ID_MIN,
};

fn decimal(n: u32) -> String {
    let mut text = String::new();
    push_decimal(&mut text, n);
    text
}

#[test]
fn formats_the_documented_example() {
    let record = LineRecord {
        timestamp: String::from("2024-01-01T00:00:00.000000000+00:00"),
        level: "INFO",
        message: "User login successful",
        transaction_id: 4821,
    };
    assert_eq!(
        record.format(),
        "[2024-01-01T00:00:00.000000000+00:00] [INFO] User login successful - TransactionID:4821\n"
    );
}

#[test]
fn documented_example_takes_88_bytes() {
    let record = LineRecord {
        timestamp: String::from("2024-01-01T00:00:00.000000000+00:00"),
        level: "INFO",
        message: "User login successful",
        transaction_id: 4821,
    };
    // 24 fixed bytes, 35 of timestamp, 4 of label, 21 of message, 4 digits.
    assert_eq!(record.format().len(), 24 + 35 + 4 + 21 + 4);
    assert_eq!(record.format().len(), 88);
}

#[test]
fn line_size_counts_bytes_not_characters() {
    let record = LineRecord {
        timestamp: String::from("2024-01-01T00:00:00+00:00"),
        level: "警告",
        message: "é",
        transaction_id: 1000,
    };
    let line = record.format();
    assert_eq!(line, "[2024-01-01T00:00:00+00:00] [警告] é - TransactionID:1000\n");
    assert_eq!(line.len(), 24 + 25 + 6 + 2 + 4);
}

#[test]
fn write_to_appends_after_what_is_there() {
    let record = LineRecord {
        timestamp: String::from("2024-01-01T00:00:00+00:00"),
        level: "WARN",
        message: "Cache refreshed",
        transaction_id: 9999,
    };
    let mut text = String::from("first\n");
    record.write_to(&mut text);
    record.write_to(&mut text);
    assert_eq!(
        text,
        "first\n\
         [2024-01-01T00:00:00+00:00] [WARN] Cache refreshed - TransactionID:9999\n\
         [2024-01-01T00:00:00+00:00] [WARN] Cache refreshed - TransactionID:9999\n"
    );
}

#[test]
fn decimal_notation_has_no_padding() {
    assert_eq!(decimal(0), "0");
    assert_eq!(decimal(7), "7");
    assert_eq!(decimal(10), "10");
    assert_eq!(decimal(105), "105");
    assert_eq!(decimal(1000), "1000");
    assert_eq!(decimal(9999), "9999");
    assert_eq!(decimal(4_294_967_295), "4294967295");
}

#[test]
fn decimal_notation_is_appended() {
    let mut text = String::from("id=");
    push_decimal(&mut text, 4821);
    assert_eq!(text, "id=4821");
}

#[test]
fn transaction_identifiers_have_four_digits() {
    assert_eq!(TRANSACTION_ID_MIN, 1000);
    assert_eq!(TRANSACTION_ID_MAX, 9999);
    assert_eq!(decimal(TRANSACTION_ID_MIN).len(), 4);
    assert_eq!(decimal(TRANSACTION_ID_MAX).len(), 4);
}

#[test]
fn timestamp_text_is_recognised() {
    assert!(is_timestamp_text("2024-01-01T00:00:00.000000000+00:00"));
    assert!(is_timestamp_text("1996-12-19T16:39:57-08:00"));
    assert!(is_timestamp_text("+12345-01-01T00:00:00.123+00:00"));
    assert!(is_timestamp_text(""));
}

#[test]
fn other_text_is_no_timestamp() {
    assert!(!is_timestamp_text("2024-01-01 00:00:00"));
    assert!(!is_timestamp_text("2024-01-01T00:00:00Z"));
    assert!(!is_timestamp_text("2024-01-01T00:00:00]"));
    assert!(!is_timestamp_text("2024-01-01T00:00:00\n"));
    assert!(!is_timestamp_text("２０２４"));
    assert!(!is_timestamp_text("t"));
    assert!(!is_timestamp_text("/"));
    assert!(!is_timestamp_text(";"));
}
