use mates::ingest::{find_from_header, parse_from_header, read_sender_from_email};

#[test]
fn from_header_with_display_name() {
    let value = "John Doe <john@x.com>".to_string();
    let (name, email) = parse_from_header(&value);
    assert_eq!(name, Some("John Doe"));
    assert_eq!(email, Some("john@x.com"));
}

#[test]
fn from_header_without_space_is_all_address() {
    let value = "john@x.com".to_string();
    let (name, email) = parse_from_header(&value);
    assert_eq!(name, None);
    assert_eq!(email, Some("john@x.com"));
}

#[test]
fn from_header_bare_angle_brackets() {
    let value = "<john@x.com>".to_string();
    let (name, email) = parse_from_header(&value);
    assert_eq!(name, None);
    assert_eq!(email, Some("john@x.com"));
}

#[test]
fn first_from_header_wins() {
    let headers = vec![
        ("To".to_string(), "a@x.com".to_string()),
        ("From".to_string(), "b@x.com".to_string()),
        ("From".to_string(), "c@x.com".to_string()),
    ];
    assert_eq!(find_from_header(&headers), Some("b@x.com".to_string()));
    assert_eq!(find_from_header(&vec![]), None);
}

#[test]
fn sender_is_read_from_raw_email() {
    let raw = "To: you@example.org\r\nFrom: John Doe <john@x.com>\r\nSubject: hi\r\n\r\nBody text.\r\n";
    assert_eq!(
        read_sender_from_email(raw),
        Some("John Doe <john@x.com>".to_string())
    );
}

#[test]
fn email_without_from_header_has_no_sender() {
    let raw = "To: you@example.org\r\nSubject: hi\r\n\r\nBody text.\r\n";
    assert_eq!(read_sender_from_email(raw), None);
}

#[test]
fn folded_from_header_is_unfolded() {
    let raw = "From: John\r\n Doe <john@x.com>\r\n\r\nBody.\r\n";
    assert_eq!(
        read_sender_from_email(raw),
        Some("JohnDoe <john@x.com>".to_string())
    );
}

#[test]
fn encoded_word_tokens_are_passed_through_raw() {
    // A malformed encoded word must not abort the ingest: the raw value is
    // handed through undecoded.
    let raw = "From: =?utf-8?x?a?= <a@x.com>\r\n\r\nBody.\r\n";
    assert_eq!(
        read_sender_from_email(raw),
        Some("=?utf-8?x?a?= <a@x.com>".to_string())
    );
    let raw = "From: =?utf-8?q?ab=?= <b@x.com>\r\n\r\nBody.\r\n";
    assert_eq!(
        read_sender_from_email(raw),
        Some("=?utf-8?q?ab=?= <b@x.com>".to_string())
    );
}

#[test]
fn body_beyond_the_headers_may_hold_anything() {
    let raw = "From: John <j@x.com>\r\n\r\nCafé au lait – 3€.\r\n";
    assert_eq!(read_sender_from_email(raw), Some("John <j@x.com>".to_string()));
}

#[test]
fn header_section_outside_ascii_has_no_sender() {
    // The tokenizer does not terminate on such text, so the library refuses
    // it instead of walking the headers.
    let raw = "From: Émile <e@x.com>\r\n\r\nBody.\r\n";
    assert_eq!(read_sender_from_email(raw), None);
}
