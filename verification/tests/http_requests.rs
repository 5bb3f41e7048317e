use webdir::digest::websocket_accept;
use webdir::http::{
    apply_header_line, is_not_modified, is_websocket_upgrade, parse_byte_range,
    request_wants_html, HeaderReader, HeaderStep, RequestHeaders, MAX_HEADER_BYTES,
};
use webdir::respond::{image_headers, ranged_reply, switching_response, text_response};

fn headers() -> RequestHeaders {
    RequestHeaders::new()
}

#[test]
fn parses_open_and_suffix_byte_ranges() {
    assert_eq!(parse_byte_range("bytes=3-", 10), Some((3, 9)));
    assert_eq!(parse_byte_range("bytes=-4", 10), Some((6, 9)));
    assert_eq!(parse_byte_range("bytes=8-20", 10), Some((8, 9)));
    assert_eq!(parse_byte_range("bytes=4-2", 10), None);
    assert_eq!(parse_byte_range("bytes=0-1,4-5", 10), None);
}

#[test]
fn validates_websocket_upgrade_headers() {
    let mut valid = headers();
    valid.connection = "keep-alive, upgrade".into();
    valid.upgrade = "websocket".into();
    valid.websocket_key = "dGhlIHNhbXBsZSBub25jZQ==".into();
    valid.websocket_version = "13".into();
    assert!(is_websocket_upgrade(&valid));

    let mut invalid = headers();
    invalid.connection = "keep-alive, upgrade".into();
    invalid.upgrade = "websocket".into();
    invalid.websocket_key = "not-a-valid-key".into();
    invalid.websocket_version = "13".into();
    assert!(!is_websocket_upgrade(&invalid));
}

#[test]
fn only_renders_text_for_document_requests() {
    let mut page = headers();
    page.accept = "text/html,application/xhtml+xml".into();
    assert!(request_wants_html(&page));

    let mut script = headers();
    script.accept = "*/*".into();
    script.fetch_dest = "script".into();
    assert!(!request_wants_html(&script));
}

#[test]
fn byte_ranges_outside_the_file_are_refused() {
    assert_eq!(parse_byte_range("bytes=20-30", 10), None);
    assert_eq!(parse_byte_range("bytes=-0", 10), None);
    assert_eq!(parse_byte_range("bytes=0-0", 0), None);
    assert_eq!(parse_byte_range("items=0-1", 10), None);
    assert_eq!(parse_byte_range("bytes=-20", 10), Some((0, 9)));
}

#[test]
fn ranged_replies_carry_the_range_and_the_length() {
    let partial = ranged_reply("bytes=2-5", 10, "video/mp4");
    assert!(partial.head.starts_with("HTTP/1.1 206 Partial Content"));
    assert!(partial.head.contains("Content-Type: video/mp4\r\n"));
    assert!(partial.head.contains("Content-Range: bytes 2-5/10\r\n"));
    assert_eq!((partial.start, partial.count), (2, 4));

    let refused = ranged_reply("bytes=20-30", 10, "video/mp4");
    assert!(refused.head.starts_with("HTTP/1.1 416 Range Not Satisfiable"));
    assert!(refused.head.contains("Content-Range: bytes */10\r\n"));
    assert_eq!(refused.count, 0);

    let whole = ranged_reply("", 10, "video/mp4");
    assert!(whole.head.starts_with("HTTP/1.1 200 OK\r\nContent-Length: 10\r\n"));
    assert_eq!((whole.start, whole.count), (0, 10));
}

#[test]
fn header_lines_fill_the_request_headers() {
    let mut h = headers();
    assert!(apply_header_line(&mut h, "Content-Length: 12\r\n"));
    assert!(apply_header_line(&mut h, "Accept: Text/HTML\r\n"));
    assert!(apply_header_line(&mut h, "X-Webdir-Auth-Token:  secret \r\n"));
    assert!(apply_header_line(&mut h, "no colon here\r\n"));
    assert_eq!(h.content_length, 12);
    assert_eq!(h.accept, "text/html");
    assert_eq!(h.auth_token, "secret");
    assert!(!apply_header_line(&mut h, "Content-Length: twelve\r\n"));
    assert_eq!(h.content_length, 12);
}

#[test]
fn header_reader_stops_at_the_blank_line_and_at_the_size_limit() {
    let mut reader = HeaderReader::new();
    assert!(matches!(reader.feed("Host: localhost\r\n", 17), HeaderStep::More));
    assert!(matches!(reader.feed("\r\n", 2), HeaderStep::Done));
    assert!(matches!(reader.feed("Content-Length: x\r\n", 19), HeaderStep::Invalid));

    let mut large = HeaderReader::new();
    assert!(matches!(large.feed("Cookie: a\r\n", MAX_HEADER_BYTES + 1), HeaderStep::TooLarge));
}

#[test]
fn entity_tags_match_exactly_weakly_or_by_wildcard() {
    assert!(is_not_modified("\"v1\"", "\"v1\""));
    assert!(is_not_modified("W/\"v1\"", "\"v1\""));
    assert!(is_not_modified("\"v0\", \"v1\"", "\"v1\""));
    assert!(is_not_modified("*", "\"v1\""));
    assert!(!is_not_modified("\"v0\"", "\"v1\""));
    assert!(!is_not_modified("", "\"v1\""));
}

#[test]
fn image_heads_revalidate_with_entity_tags() {
    let (head, body) = image_headers(5, "image/png", Some("\"v1\""), "\"v1\"", false);
    assert!(head.starts_with("HTTP/1.1 304 Not Modified"));
    assert!(head.contains("Cache-Control: no-cache\r\n"));
    assert!(!body);

    let (head, body) = image_headers(5, "image/png", None, "", false);
    assert!(head.contains("Cache-Control: no-store\r\n"));
    assert!(body);

    let (head, body) = image_headers(5, "image/png", Some("\"v1\""), "", true);
    assert!(head.contains("Cache-Control: private, max-age=31536000, immutable\r\n"));
    assert!(head.contains("Content-Length: 5\r\n"));
    assert!(body);
}

#[test]
fn websocket_handshake_uses_the_sha1_accept_key() {
    let expected = "HTTP/1.1 101 Switching Protocols\r\nUpgrade: websocket\r\nConnection: Upgrade\r\nSec-WebSocket-Accept: s3pPLMBiTxaQ9kYGzzhZRbK+xOo=\r\n\r\n";
    assert_eq!(websocket_accept("dGhlIHNhbXBsZSBub25jZQ=="), expected);
    assert_eq!(switching_response("s3pPLMBiTxaQ9kYGzzhZRbK+xOo="), expected);
}

#[test]
fn text_responses_have_a_length_and_no_body_for_head() {
    let get = text_response(404, "Not Found", "Not Found\n", false);
    assert!(get.starts_with("HTTP/1.1 404 Not Found\r\n"));
    assert!(get.contains("Content-Length: 10\r\n"));
    assert!(get.ends_with("\r\n\r\nNot Found\n"));
    let head = text_response(404, "Not Found", "Not Found\n", true);
    assert!(head.ends_with("\r\n\r\n"));
    assert!(head.contains("Content-Length: 10\r\n"));
}
