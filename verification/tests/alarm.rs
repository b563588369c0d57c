use button_protocol::alarm::{content_length_of_line, is_end_of_headers, parse_u64_digits, trim_str};

#[test]
fn content_length_is_read_from_its_header_line() {
    assert_eq!(content_length_of_line("Content-Length: 42\r\n"), Some(42));
    assert_eq!(content_length_of_line("Content-Length: 0\r\n"), Some(0));
    assert_eq!(content_length_of_line("Content-Length:  7 \r\n"), Some(7));
}

#[test]
fn other_lines_carry_no_length() {
    assert_eq!(content_length_of_line("Host: somewhere\r\n"), None);
    assert_eq!(content_length_of_line("\r\n"), None);
    assert_eq!(content_length_of_line("content-length: 9\r\n"), None);
    assert_eq!(content_length_of_line("Content-Length: many\r\n"), None);
    assert_eq!(content_length_of_line("Content-Length: \r\n"), None);
}

#[test]
fn digit_parsing_is_exact_and_bounded() {
    assert_eq!(parse_u64_digits("0"), Some(0));
    assert_eq!(parse_u64_digits("00123"), Some(123));
    assert_eq!(parse_u64_digits("18446744073709551615"), Some(u64::MAX));
    assert_eq!(parse_u64_digits("18446744073709551616"), None);
    assert_eq!(parse_u64_digits(""), None);
    assert_eq!(parse_u64_digits("12a"), None);
    assert_eq!(parse_u64_digits("-3"), None);
}

#[test]
fn trimming_strips_ascii_whitespace_only_at_the_ends() {
    assert_eq!(trim_str("  12 \r\n"), "12");
    assert_eq!(trim_str("a b"), "a b");
    assert_eq!(trim_str("\t\r\n "), "");
    assert_eq!(trim_str(""), "");
}

#[test]
fn a_bare_crlf_ends_the_headers() {
    assert!(is_end_of_headers("\r\n"));
    assert!(!is_end_of_headers(""));
    assert!(!is_end_of_headers("\n"));
    assert!(!is_end_of_headers("Content-Length: 2\r\n"));
}
