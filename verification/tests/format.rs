use ktools::decimal::{decimal_text, push_decimal};
use ktools::format::{format_into, format_message};
use ktools::message::Message;

fn message(offset: i64, value: &[u8]) -> Message {
    Message { offset, value: value.to_vec() }
}

#[test]
fn decimal_text_of_small_numbers() {
    assert_eq!(decimal_text(0), b"0".to_vec());
    assert_eq!(decimal_text(7), b"7".to_vec());
    assert_eq!(decimal_text(10), b"10".to_vec());
    assert_eq!(decimal_text(1234567890), b"1234567890".to_vec());
    assert_eq!(decimal_text(-1), b"-1".to_vec());
    assert_eq!(decimal_text(-105), b"-105".to_vec());
}

#[test]
fn decimal_text_of_the_extremes() {
    assert_eq!(decimal_text(i64::MAX), b"9223372036854775807".to_vec());
    assert_eq!(decimal_text(i64::MIN), b"-9223372036854775808".to_vec());
    assert_eq!(decimal_text(i32::MIN as i64), b"-2147483648".to_vec());
}

#[test]
fn decimal_text_agrees_with_the_standard_formatting() {
    for n in [0i64, 1, 9, 10, 11, 99, 100, 101, -9, -10, -99, -100, 4096, -65535, 1 << 40] {
        assert_eq!(decimal_text(n), format!("{}", n).into_bytes());
    }
}

#[test]
fn push_decimal_appends_and_keeps_what_was_there() {
    let mut buf = b"x=".to_vec();
    push_decimal(&mut buf, 42);
    push_decimal(&mut buf, -7);
    assert_eq!(buf, b"x=42-7".to_vec());
}

#[test]
fn a_verbose_line_starts_with_topic_partition_and_offset() {
    let line = format_message("orders", 0, &message(10, b"first"), 1);
    assert_eq!(line, b"orders:0@10:first\n".to_vec());
    let line = format_message("orders", 12, &message(1234, b"{\"id\":1}"), 10);
    assert_eq!(line, b"orders:12@1234:{\"id\":1}\n".to_vec());
}

#[test]
fn a_quiet_line_is_the_payload_and_a_newline() {
    let line = format_message("orders", 0, &message(10, b"first"), 0);
    assert_eq!(line, b"first\n".to_vec());
}

#[test]
fn any_verbosity_but_zero_gives_the_prefix() {
    let expected = b"t:3@5:v\n".to_vec();
    for verbose in [1, 2, 10, -1, i32::MAX, i32::MIN] {
        assert_eq!(format_message("t", 3, &message(5, b"v"), verbose), expected);
    }
}

#[test]
fn an_empty_payload_still_gives_a_line() {
    assert_eq!(format_message("t", 0, &message(0, b""), 0), b"\n".to_vec());
    assert_eq!(format_message("t", 0, &message(0, b""), 1), b"t:0@0:\n".to_vec());
}

#[test]
fn a_payload_is_copied_byte_for_byte() {
    let payload: Vec<u8> = vec![0, 10, 255, 13, 10];
    let line = format_message("t", 1, &message(2, &payload), 0);
    assert_eq!(line, vec![0, 10, 255, 13, 10, 10]);
}

#[test]
fn a_topic_is_written_in_utf8() {
    let line = format_message("caf\u{e9}", 1, &message(2, b"x"), 1);
    assert_eq!(line, "caf\u{e9}:1@2:x\n".as_bytes().to_vec());
}

#[test]
fn negative_partition_and_offset_are_written_with_a_sign() {
    let line = format_message("t", -1, &message(-2, b"x"), 1);
    assert_eq!(line, b"t:-1@-2:x\n".to_vec());
}

#[test]
fn formatting_twice_gives_the_same_bytes() {
    let m = message(14, b"payload");
    for verbose in [0, 1] {
        let first = format_message("orders", 0, &m, verbose);
        let second = format_message("orders", 0, &m, verbose);
        assert_eq!(first, second);
    }
}

#[test]
fn a_reused_buffer_holds_the_last_line_only() {
    let mut buf = b"left over from before".to_vec();
    format_into(&mut buf, "orders", 0, &message(10, b"a long first payload"), 1);
    assert_eq!(buf, b"orders:0@10:a long first payload\n".to_vec());
    format_into(&mut buf, "orders", 0, &message(11, b"b"), 1);
    assert_eq!(buf, b"orders:0@11:b\n".to_vec());
    format_into(&mut buf, "orders", 0, &message(11, b"b"), 1);
    assert_eq!(buf, b"orders:0@11:b\n".to_vec());
    format_into(&mut buf, "orders", 0, &message(12, b"c"), 0);
    assert_eq!(buf, b"c\n".to_vec());
}
