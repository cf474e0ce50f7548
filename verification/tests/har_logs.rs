use http_request_derive::{har_request, har_response};

fn headers() -> Vec<(String, Vec<u8>)> {
    vec![
        ("content-type".to_string(), b"application/json".to_vec()),
        ("x-binary".to_string(), vec![0xff, 0x41]),
    ]
}

#[test]
fn har_request_splits_the_query_off_the_url() {
    let r = har_request(
        "POST".to_string(),
        "https://example.com/books/55?start_x=10&flag",
        "HTTP/1.1".to_string(),
        &headers(),
        b"{\"x\":10}",
    )
    .expect("har request");
    assert_eq!(r.method, "POST");
    assert_eq!(r.url, "https://example.com/books/55");
    assert_eq!(r.http_version, "HTTP/1.1");
    let pairs: Vec<(String, String)> = r.query_string.iter().map(|p| (p.name.clone(), p.value.clone())).collect();
    assert_eq!(pairs, vec![("start_x".to_string(), "10".to_string()), ("flag".to_string(), String::new())]);
    assert_eq!(r.headers.len(), 2);
    assert_eq!(r.headers[0].value, "application/json");
    assert_eq!(r.headers[1].value, "");
    assert_eq!(r.headers_size, 2);
    assert_eq!(r.body_size, 8);
    let post = r.post_data.expect("post data");
    assert_eq!(post.mime_type, "application/json");
    assert_eq!(post.text, "{\"x\":10}");
}

#[test]
fn har_request_without_body_or_query() {
    let r = har_request("GET".to_string(), "https://example.com/info", "HTTP/2.0".to_string(), &Vec::new(), b"")
        .expect("har request");
    assert_eq!(r.url, "https://example.com/info");
    assert!(r.query_string.is_empty());
    assert!(r.post_data.is_none());
    assert_eq!(r.body_size, 0);
    assert_eq!(r.headers_size, 0);
    assert!(har_request("GET".to_string(), "", "HTTP/1.1".to_string(), &Vec::new(), b"").is_none());
}

#[test]
fn har_request_body_size_is_of_the_text() {
    let r = har_request("PUT".to_string(), "/x", "HTTP/1.1".to_string(), &Vec::new(), &[0xff]).expect("har request");
    assert_eq!(r.post_data.expect("post data").text, "\u{fffd}");
    assert_eq!(r.body_size, 3);
}

#[test]
fn har_response_records_status_and_body() {
    let r = har_response(500, "HTTP/1.1".to_string(), &headers(), b"oops");
    assert_eq!(r.status, 500);
    assert_eq!(r.status_text, "500 Internal Server Error");
    assert_eq!(r.content_size, 4);
    assert_eq!(r.body_size, 4);
    assert_eq!(r.content_text, Some("oops".to_string()));
    assert_eq!(r.headers_size, 2);
    let empty = har_response(204, "HTTP/1.1".to_string(), &Vec::new(), b"");
    assert_eq!(empty.content_text, None);
    assert_eq!(empty.status_text, "204 No Content");
}

#[test]
fn har_request_url_never_keeps_a_question_mark() {
    let r = har_request("GET".to_string(), "https://example.com/a?", "HTTP/1.1".to_string(), &Vec::new(), b"")
        .expect("har request");
    assert_eq!(r.url, "https://example.com/a");
    assert!(!r.url.contains('?'));
    let r = har_request("GET".to_string(), "http://h:8080/p/q?x=1?y=2", "HTTP/1.1".to_string(), &Vec::new(), b"")
        .expect("har request");
    assert_eq!(r.url, "http://h:8080/p/q");
    let pairs: Vec<(String, String)> = r.query_string.iter().map(|p| (p.name.clone(), p.value.clone())).collect();
    assert_eq!(pairs, vec![("x".to_string(), "1?y=2".to_string())]);
}

#[test]
fn har_request_records_post_data_for_any_non_empty_body() {
    let r = har_request("POST".to_string(), "/x", "HTTP/1.1".to_string(), &Vec::new(), &[0xfe, 0xff])
        .expect("har request");
    assert_eq!(r.post_data.expect("post data").text, "\u{fffd}\u{fffd}");
    let r = har_request("POST".to_string(), "/x", "HTTP/1.1".to_string(), &Vec::new(), b"").expect("har request");
    assert!(r.post_data.is_none());
}
