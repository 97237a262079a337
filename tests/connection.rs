use static_serve::connection::{after_fallback, after_primary, is_get_request, start_request, ServerConfig, Step};

fn config(fallback: &str) -> ServerConfig {
    ServerConfig {
        rootpath: String::from("./www"),
        indexfile: String::from("index.html"),
        error404file: String::from(fallback),
    }
}

#[test]
fn get_is_detected() {
    assert!(is_get_request(b"GET / HTTP/1.1"));
    assert!(!is_get_request(b"GET"));
    assert!(!is_get_request(b"POST / HTTP/1.1"));
    assert!(!is_get_request(b"get / HTTP/1.1"));
}

#[test]
fn get_reads_resolved_path() {
    assert_eq!(start_request(b"GET /a.txt HTTP/1.1\r\n\r\n", &config("")), Step::Read(String::from("./www/a.txt")));
}

#[test]
fn get_of_directory_reads_index_file() {
    assert_eq!(start_request(b"GET /docs/ HTTP/1.1\r\n\r\n", &config("")), Step::Read(String::from("./www/docs/index.html")));
}

#[test]
fn non_get_is_closed_without_reply() {
    assert_eq!(start_request(b"POST /a.txt HTTP/1.1\r\n\r\n", &config("404.html")), Step::Close);
    assert_eq!(start_request(b"", &config("404.html")), Step::Close);
}

#[test]
fn over_long_target_is_closed_without_reply() {
    let mut request = b"GET /".to_vec();
    request.extend(std::iter::repeat(b'a').take(300));
    request.extend_from_slice(b" HTTP/1.1\r\n\r\n");
    assert_eq!(start_request(&request, &config("")), Step::Close);
}

#[test]
fn existing_file_is_sent_with_ok() {
    assert_eq!(
        after_primary(Some(b"<p>hi</p>".to_vec()), &config("404.html")),
        Step::Send(b"HTTP/1.1 200 OK\r\nContent-Length: 9\r\n\r\n<p>hi</p>".to_vec())
    );
}

#[test]
fn existing_empty_file_is_sent_with_ok() {
    assert_eq!(
        after_primary(Some(Vec::new()), &config("404.html")),
        Step::Send(b"HTTP/1.1 200 OK\r\nContent-Length: 0\r\n\r\n".to_vec())
    );
}

#[test]
fn missing_file_without_fallback_is_empty_not_found() {
    assert_eq!(
        after_primary(None, &config("")),
        Step::Send(b"HTTP/1.1 404 NOT FOUND\r\nContent-Length: 0\r\n\r\n".to_vec())
    );
}

#[test]
fn missing_file_with_fallback_reads_fallback() {
    assert_eq!(after_primary(None, &config("404.html")), Step::Read(String::from("./www/404.html")));
}

#[test]
fn fallback_body_keeps_not_found_status() {
    assert_eq!(
        after_fallback(Some(b"gone".to_vec())),
        Step::Send(b"HTTP/1.1 404 NOT FOUND\r\nContent-Length: 4\r\n\r\ngone".to_vec())
    );
}

#[test]
fn unreadable_fallback_gives_empty_not_found() {
    assert_eq!(
        after_fallback(None),
        Step::Send(b"HTTP/1.1 404 NOT FOUND\r\nContent-Length: 0\r\n\r\n".to_vec())
    );
}

#[test]
fn repeated_request_gives_identical_steps() {
    let c = config("404.html");
    let request = b"GET /x/ HTTP/1.1\r\n\r\n";
    assert_eq!(start_request(request, &c), start_request(request, &c));
    assert_eq!(after_primary(Some(b"abc".to_vec()), &c), after_primary(Some(b"abc".to_vec()), &c));
}
