use kinic_cli::http::{
    find_header_end, parse_request, parse_request_head, HttpRequest, RequestError, RequestReader,
    MAX_HEADER_BYTES,
};

#[test]
fn header_end_is_the_first_blank_line() {
    assert_eq!(find_header_end(b"GET / HTTP/1.1\r\n\r\nbody\r\n\r\n"), Some(14));
    assert_eq!(find_header_end(b"\r\n\r\n"), Some(0));
    assert_eq!(find_header_end(b"a\r\n\r\r\n\r\n"), Some(4));
}

#[test]
fn header_end_is_absent_without_a_blank_line() {
    assert_eq!(find_header_end(b""), None);
    assert_eq!(find_header_end(b"\r\n\r"), None);
    assert_eq!(find_header_end(b"GET / HTTP/1.1\r\nHost: x\r\n"), None);
    assert_eq!(find_header_end(b"\n\n\n\n\r\r\r\r"), None);
}

#[test]
fn request_line_and_headers_are_read() {
    let request = parse_request(
        b"POST /callback?x=1 HTTP/1.1\r\nHost: localhost\r\n  Origin :  https://id.example  \r\nno colon here\r\nX-Empty:\r\n\r\nhello",
    )
    .unwrap();
    assert_eq!(request.method, "POST");
    assert_eq!(request.path, "/callback?x=1");
    assert_eq!(
        request.headers,
        vec![
            ("Host".to_string(), "localhost".to_string()),
            ("Origin".to_string(), "https://id.example".to_string()),
            ("X-Empty".to_string(), "".to_string()),
        ]
    );
    assert_eq!(request.body, b"hello".to_vec());
}

#[test]
fn header_value_keeps_what_follows_the_first_colon() {
    let request = parse_request(b"GET / HTTP/1.1\r\nOrigin: http://localhost:8080\r\n\r\n").unwrap();
    assert_eq!(request.header("origin"), Some("http://localhost:8080"));
}

#[test]
fn header_lookup_ignores_ascii_case_and_takes_the_first() {
    let request = HttpRequest {
        method: "GET".to_string(),
        path: "/".to_string(),
        headers: vec![
            ("Content-Type".to_string(), "a".to_string()),
            ("ORIGIN".to_string(), "first".to_string()),
            ("origin".to_string(), "second".to_string()),
        ],
        body: Vec::new(),
    };
    assert_eq!(request.header("Origin"), Some("first"));
    assert_eq!(request.header("content-type"), Some("a"));
    assert_eq!(request.header("content_type"), None);
    assert_eq!(request.header("origi"), None);
    assert_eq!(request.header("\u{212A}"), None);
}

#[test]
fn lines_may_end_in_bare_newlines() {
    let request = parse_request(b"GET /x HTTP/1.1\nA: 1\nB: 2\r\n\r\n").unwrap();
    assert_eq!(request.method, "GET");
    assert_eq!(request.path, "/x");
    assert_eq!(
        request.headers,
        vec![("A".to_string(), "1".to_string()), ("B".to_string(), "2".to_string())]
    );
}

#[test]
fn words_of_the_request_line_are_split_at_any_whitespace() {
    let request = parse_request_head("  GET\t\u{a0}/a\u{3000}HTTP/1.1").unwrap();
    assert_eq!(request.method, "GET");
    assert_eq!(request.path, "/a");
    assert!(request.headers.is_empty());
    assert!(request.body.is_empty());
}

#[test]
fn empty_header_block_has_no_request_line() {
    assert_eq!(parse_request(b"\r\n\r\n"), Err(RequestError::MissingRequestLine));
    assert_eq!(parse_request_head(""), Err(RequestError::MissingRequestLine));
}

#[test]
fn blank_request_line_has_no_method() {
    assert_eq!(parse_request(b" \t\r\nHost: x\r\n\r\n"), Err(RequestError::MissingMethod));
    assert_eq!(parse_request_head("\nGET / HTTP/1.1"), Err(RequestError::MissingMethod));
}

#[test]
fn request_line_of_one_word_has_no_path() {
    assert_eq!(parse_request(b"GET\r\n\r\n"), Err(RequestError::MissingPath));
    assert_eq!(parse_request(b"GET  \r\n/ HTTP/1.1\r\n\r\n"), Err(RequestError::MissingPath));
}

#[test]
fn buffer_without_blank_line_is_no_request() {
    assert_eq!(parse_request(b"GET / HTTP/1.1\r\n"), Err(RequestError::Closed));
}

#[test]
fn invalid_utf8_in_headers_is_replaced() {
    let request = parse_request(b"GET /\xff HTTP/1.1\r\nX: \xc3\x28\r\n\r\n").unwrap();
    assert_eq!(request.path, "/\u{fffd}");
    assert_eq!(request.header("x"), Some("\u{fffd}("));
}

#[test]
fn content_length_is_the_first_that_parses() {
    let mut request = parse_request(
        b"POST / HTTP/1.1\r\nContent-Length: ten\r\ncontent-length: +12\r\nContent-Length: 99\r\n\r\nabc",
    )
    .unwrap();
    assert_eq!(request.content_length(), 12);
    assert_eq!(request.missing_body(), 9);
    request.extend_body(b"defghijkl");
    assert_eq!(request.body, b"abcdefghijkl".to_vec());
    assert_eq!(request.missing_body(), 0);
}

#[test]
fn content_length_defaults_to_zero() {
    let request = parse_request(b"POST / HTTP/1.1\r\nContent-Length: -1\r\n\r\nabc").unwrap();
    assert_eq!(request.content_length(), 0);
    assert_eq!(request.missing_body(), 0);
    let request = parse_request(b"POST / HTTP/1.1\r\nContent-Length: 1 2\r\n\r\n").unwrap();
    assert_eq!(request.content_length(), 0);
    let request = parse_request(b"POST / HTTP/1.1\r\nContent-Length:\r\n\r\n").unwrap();
    assert_eq!(request.content_length(), 0);
    let request = parse_request(b"POST / HTTP/1.1\r\nContent-Length: +\r\n\r\n").unwrap();
    assert_eq!(request.content_length(), 0);
}

#[test]
fn content_length_beyond_usize_does_not_parse() {
    let request = parse_request(
        b"POST / HTTP/1.1\r\nContent-Length: 99999999999999999999999999\r\nContent-Length: 0007\r\n\r\n",
    )
    .unwrap();
    assert_eq!(request.content_length(), 7);
    let text = format!("POST / HTTP/1.1\r\nContent-Length: {}\r\n\r\n", usize::MAX);
    let request = parse_request(text.as_bytes()).unwrap();
    assert_eq!(request.content_length(), usize::MAX);
}

#[test]
fn body_longer_than_declared_is_kept() {
    let request = parse_request(b"POST / HTTP/1.1\r\nContent-Length: 2\r\n\r\nabcdef").unwrap();
    assert_eq!(request.body, b"abcdef".to_vec());
    assert_eq!(request.missing_body(), 0);
}

#[test]
fn reader_waits_for_the_blank_line() {
    let mut reader = RequestReader::new();
    assert_eq!(reader.accept_chunk(b"GET /callback HT"), Ok(None));
    assert_eq!(reader.accept_chunk(b"TP/1.1\r\nHost: a\r\n\r"), Ok(None));
    let request = reader.accept_chunk(b"\nxy").unwrap().unwrap();
    assert_eq!(request.method, "GET");
    assert_eq!(request.path, "/callback");
    assert_eq!(request.headers, vec![("Host".to_string(), "a".to_string())]);
    assert_eq!(request.body, b"xy".to_vec());
}

#[test]
fn reader_reports_a_closed_connection() {
    let mut reader = RequestReader::new();
    assert_eq!(reader.accept_chunk(b""), Err(RequestError::Closed));
    assert_eq!(reader.accept_chunk(b"GET / HTTP/1.1\r\n"), Ok(None));
    assert_eq!(reader.accept_chunk(b""), Err(RequestError::Closed));
}

#[test]
fn reader_reports_a_malformed_head() {
    let mut reader = RequestReader::new();
    assert_eq!(reader.accept_chunk(b"GET\r\n\r\n"), Err(RequestError::MissingPath));
}

#[test]
fn large_header_guard() {
    let chunk = [b'a'; 1024];
    let mut reader = RequestReader::new();
    for _ in 0..(MAX_HEADER_BYTES / 1024) {
        assert_eq!(reader.accept_chunk(&chunk), Ok(None));
    }
    assert_eq!(reader.accept_chunk(b"b"), Err(RequestError::HeaderTooLarge));
}

#[test]
fn header_of_exactly_the_limit_is_still_read() {
    let mut reader = RequestReader::new();
    let mut head = b"GET / HTTP/1.1\r\nX: ".to_vec();
    head.resize(MAX_HEADER_BYTES - 2, b'y');
    assert_eq!(reader.accept_chunk(&head), Ok(None));
    assert_eq!(reader.accept_chunk(b"\r\n"), Ok(None));
    let request = reader.accept_chunk(b"\r\n").unwrap().unwrap();
    assert_eq!(request.path, "/");
    assert_eq!(request.headers.len(), 1);
}

#[test]
fn request_errors_have_their_texts() {
    assert_eq!(RequestError::Closed.message(), "Invalid request");
    assert_eq!(RequestError::HeaderTooLarge.message(), "Request header too large");
    assert_eq!(RequestError::MissingRequestLine.message(), "Missing request line");
    assert_eq!(RequestError::MissingMethod.message(), "Missing method");
    assert_eq!(RequestError::MissingPath.message(), "Missing path");
}
