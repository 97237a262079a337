use static_serve::request::{extract_target, get_uri, trim_nul_bytes, RequestError, TARGET_CAPACITY};

fn uri(request: &[u8], index: &str) -> Result<String, RequestError> {
    get_uri(request, index)
}

#[test]
fn uri_of_plain_file() {
    assert_eq!(uri(b"GET /hello.txt HTTP/1.1\r\nHost: x\r\n\r\n", "index.html"), Ok(String::from("/hello.txt")));
}

#[test]
fn uri_of_directory_gets_index_file() {
    assert_eq!(uri(b"GET /docs/ HTTP/1.1\r\n\r\n", "index.html"), Ok(String::from("/docs/index.html")));
}

#[test]
fn uri_of_root_gets_index_file() {
    assert_eq!(uri(b"GET / HTTP/1.1\r\n\r\n", "home.htm"), Ok(String::from("/home.htm")));
}

#[test]
fn uri_without_second_space_runs_to_end_of_read() {
    assert_eq!(uri(b"GET /x", "index.html"), Ok(String::from("/x")));
}

#[test]
fn uri_trims_nul_padding() {
    assert_eq!(uri(b"GET /a\0\0\0 HTTP/1.1", "index.html"), Ok(String::from("/a")));
    assert_eq!(uri(b"GET \0/dir/\0 HTTP/1.1", "i.html"), Ok(String::from("/dir/i.html")));
}

#[test]
fn uri_of_invalid_utf8_is_empty() {
    assert_eq!(uri(b"GET /\xff\xfe/ HTTP/1.1", "index.html"), Ok(String::new()));
}

#[test]
fn uri_of_buffer_without_space_is_empty() {
    assert_eq!(uri(b"GARBAGE", "index.html"), Ok(String::new()));
    assert_eq!(uri(b"", "index.html"), Ok(String::new()));
}

#[test]
fn uri_keeps_non_ascii_text() {
    assert_eq!(uri("GET /caf\u{e9}/ HTTP/1.1".as_bytes(), "index.html"), Ok(String::from("/caf\u{e9}/index.html")));
}

#[test]
fn target_at_capacity_is_accepted() {
    let mut request = b"GET ".to_vec();
    request.extend(std::iter::repeat(b'a').take(TARGET_CAPACITY));
    request.extend_from_slice(b" HTTP/1.1\r\n\r\n");
    let target = extract_target(&request).unwrap();
    assert_eq!(target.len(), 256);
    assert_eq!(uri(&request, "index.html").unwrap().len(), 256);
}

#[test]
fn target_over_capacity_is_refused() {
    let mut request = b"GET /".to_vec();
    request.extend(std::iter::repeat(b'a').take(TARGET_CAPACITY));
    request.extend_from_slice(b" HTTP/1.1\r\n\r\n");
    assert_eq!(extract_target(&request), Err(RequestError::TargetTooLong));
    assert_eq!(uri(&request, "index.html"), Err(RequestError::TargetTooLong));
}

#[test]
fn long_read_without_second_space_is_refused() {
    let mut request = b"GET /".to_vec();
    request.extend(std::iter::repeat(b'z').take(1019));
    assert_eq!(request.len(), 1024);
    assert_eq!(uri(&request, "index.html"), Err(RequestError::TargetTooLong));
}

#[test]
fn extract_target_stops_at_second_space() {
    assert_eq!(extract_target(b"GET /a/b c d"), Ok(b"/a/b".to_vec()));
    assert_eq!(extract_target(b"GET  HTTP/1.1"), Ok(Vec::new()));
}

#[test]
fn trim_nul_drops_both_ends_only() {
    assert_eq!(trim_nul_bytes(b"\0\0a\0b\0"), b"a\0b".to_vec());
    assert_eq!(trim_nul_bytes(b"\0\0\0"), Vec::<u8>::new());
    assert_eq!(trim_nul_bytes(b""), Vec::<u8>::new());
}
