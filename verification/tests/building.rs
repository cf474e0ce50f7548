use http_request_derive::{
    apply_header_field, apply_json_content_type, assemble_request, check_response_status,
    json_result, path_segments, FromHttpResponse, HttpMethod, HttpRequest, HttpRequestBody,
    HttpRequestQueryParams, ReceivedResponse, RequestError, Url,
};

fn texts(v: &[String]) -> Vec<&str> {
    v.iter().map(|s| s.as_str()).collect()
}

#[test]
fn path_segments_skip_leading_slashes_only() {
    assert_eq!(texts(&path_segments("/a//b/")), vec!["a", "", "b", ""]);
    assert_eq!(texts(&path_segments("books/55/abstract")), vec!["books", "55", "abstract"]);
    assert!(path_segments("").is_empty());
    assert!(path_segments("///").is_empty());
}

#[test]
fn path_segments_join_back_to_the_path() {
    let path = "//query/a//response/";
    assert_eq!(path_segments(path).join("/"), "query/a//response/");
}

#[test]
fn url_parse_and_serialization() {
    let url = Url::parse("https://Example.com").expect("parse url");
    assert_eq!(url.as_str(), "https://example.com/");
    assert!(Url::parse("not a url").is_err());
    assert_eq!(url.clone().as_str(), "https://example.com/");
}

#[test]
fn url_with_path_segments_pops_an_empty_last_segment() {
    let url = Url::parse("https://example.com/api/").expect("parse url");
    let segments = vec!["x".to_string(), "y".to_string()];
    let joined = url.with_path_segments(&segments).expect("base");
    assert_eq!(joined.as_str(), "https://example.com/api/x/y");

    let url = Url::parse("https://example.com/api").expect("parse url");
    let joined = url.with_path_segments(&segments).expect("base");
    assert_eq!(joined.as_str(), "https://example.com/api/x/y");

    let mail = Url::parse("mailto:someone@example.com").expect("parse url");
    assert!(mail.with_path_segments(&segments).is_none());
}

#[test]
fn url_with_query_replaces_or_removes_the_query() {
    let url = Url::parse("https://example.com/p?lang=en").expect("parse url");
    assert_eq!(url.with_query(&Some("a=1".to_string())).as_str(), "https://example.com/p?a=1");
    assert_eq!(url.with_query(&None).as_str(), "https://example.com/p");
    assert_eq!(url.to_uri().expect("uri"), "https://example.com/p?lang=en");
}

#[test]
fn uri_text_drops_the_fragment() {
    let url = Url::parse("https://example.com/p#top").expect("parse url");
    assert_eq!(url.as_str(), "https://example.com/p#top");
    assert_eq!(url.to_uri().expect("uri"), "https://example.com/p");
}

fn empty_headers() -> http::HeaderMap {
    http::HeaderMap::new()
}

#[test]
fn assemble_request_keeps_the_base_query_without_a_query() {
    let base = Url::parse("https://example.com/api/?lang=en").expect("parse url");
    let request = assemble_request(HttpMethod::Put, &base, "/items/7", Ok(vec![1, 2, 3]), None, empty_headers())
        .expect("request");
    assert_eq!(request.uri(), "https://example.com/api/items/7?lang=en");
    assert_eq!(request.method(), HttpMethod::Put);
    assert_eq!(request.body(), &vec![1, 2, 3]);
    assert!(request.headers().is_empty());
}

#[test]
fn assemble_request_replaces_or_removes_the_base_query() {
    let base = Url::parse("https://example.com/?lang=en").expect("parse url");
    let with_query = assemble_request(
        HttpMethod::Get,
        &base,
        "info",
        Ok(Vec::new()),
        Some(Ok(Some("limit=10".to_string()))),
        empty_headers(),
    )
    .expect("request");
    assert_eq!(with_query.uri(), "https://example.com/info?limit=10");

    let without_query =
        assemble_request(HttpMethod::Get, &base, "info", Ok(Vec::new()), Some(Ok(None)), empty_headers())
            .expect("request");
    assert_eq!(without_query.uri(), "https://example.com/info");
}

#[test]
fn a_leading_slash_in_the_path_does_not_matter() {
    let base = Url::parse("https://example.com/api/").expect("parse url");
    let with = assemble_request(HttpMethod::Get, &base, "/a/b", Ok(Vec::new()), None, empty_headers()).expect("request");
    let without = assemble_request(HttpMethod::Get, &base, "a/b", Ok(Vec::new()), None, empty_headers()).expect("request");
    assert_eq!(with.uri(), without.uri());
    assert_eq!(with.uri(), "https://example.com/api/a/b");
}

#[test]
fn assemble_request_reports_a_base_that_cannot_be_a_base() {
    let base = Url::parse("mailto:someone@example.com").expect("parse url");
    let res = assemble_request(HttpMethod::Get, &base, "info", Ok(Vec::new()), None, empty_headers());
    match res {
        Err(RequestError::UrlCannotBeABase { url }) => assert_eq!(url, "mailto:someone@example.com"),
        other => panic!("unexpected {:?}", other),
    }
}

#[test]
fn assemble_request_reports_errors_in_order() {
    let base = Url::parse("mailto:someone@example.com").expect("parse url");
    let body_error = RequestError::QueryString { message: "body".to_string() };
    let res = assemble_request(HttpMethod::Get, &base, "info", Err(body_error), None, empty_headers());
    assert!(matches!(res, Err(RequestError::QueryString { message }) if message == "body"));

    let base = Url::parse("https://example.com/").expect("parse url");
    let query_error = RequestError::QueryString { message: "query".to_string() };
    let res = assemble_request(HttpMethod::Get, &base, "info", Ok(Vec::new()), Some(Err(query_error)), empty_headers());
    assert!(matches!(res, Err(RequestError::QueryString { message }) if message == "query"));
}

#[test]
fn assemble_request_reports_a_url_that_is_no_uri() {
    let base = Url::parse("https://example.com/").expect("parse url");
    let long_path = "a".repeat(70000);
    let res = assemble_request(HttpMethod::Get, &base, &long_path, Ok(Vec::new()), None, empty_headers());
    assert!(matches!(res, Err(RequestError::ParseUri { .. })));
}

#[test]
fn prepared_request_converts_to_an_http_request() {
    let base = Url::parse("https://example.com/").expect("parse url");
    let mut headers = empty_headers();
    apply_json_content_type(&mut headers);
    let request = assemble_request(HttpMethod::Delete, &base, "/x", Ok(b"{}".to_vec()), None, headers)
        .expect("request");
    let http_request = request.into_http_request().expect("http request");
    assert_eq!(http_request.method(), http::Method::DELETE);
    assert_eq!(http_request.uri().to_string(), "https://example.com/x");
    assert_eq!(http_request.headers()["content-type"], "application/json");
    assert_eq!(http_request.body(), &b"{}".to_vec());
}

#[test]
fn prepared_request_with_a_bad_uri_does_not_convert() {
    let request = http_request_derive::PreparedRequest {
        method: HttpMethod::Get,
        uri: "not a uri".to_string(),
        headers: empty_headers(),
        body: Vec::new(),
    };
    assert!(matches!(request.into_http_request(), Err(RequestError::BuildRequest { .. })));
}

#[test]
fn default_query_and_body_are_absent() {
    assert!(Info.query().is_none());
    assert!(Info.body().is_none());
}

#[test]
fn json_content_type_is_added_once_and_kept() {
    let mut headers = empty_headers();
    apply_json_content_type(&mut headers);
    apply_json_content_type(&mut headers);
    assert_eq!(headers.len(), 1);
    assert_eq!(headers["content-type"], "application/json");

    let mut headers = empty_headers();
    headers.insert(http::header::CONTENT_TYPE, http::HeaderValue::from_static("text/plain"));
    apply_json_content_type(&mut headers);
    assert_eq!(headers.len(), 1);
    assert_eq!(headers["content-type"], "text/plain");
}

#[test]
fn header_field_replaces_the_values_of_its_names() {
    let mut headers = empty_headers();
    headers.insert(http::header::ACCEPT, http::HeaderValue::from_static("text/plain"));
    headers.insert(http::header::HOST, http::HeaderValue::from_static("hello.world"));
    let mut field = empty_headers();
    field.insert(http::header::HOST, http::HeaderValue::from_static("foo.bar"));
    field.insert(http::header::COOKIE, http::HeaderValue::from_static("hello"));
    field.append(http::header::COOKIE, http::HeaderValue::from_static("world"));
    apply_header_field(&mut headers, &field);
    assert_eq!(headers["host"], "foo.bar");
    assert_eq!(headers["accept"], "text/plain");
    assert_eq!(headers.get_all("cookie").iter().count(), 2);
    assert_eq!(headers.len(), 4);
}

#[test]
fn string_and_unit_bodies_are_json() {
    let body = "a \"quoted\" text".to_string();
    assert_eq!(body.to_vec().expect("json"), b"\"a \\\"quoted\\\" text\"".to_vec());
    assert_eq!(().to_vec().expect("json"), b"null".to_vec());
    let mut headers = empty_headers();
    body.apply_headers(&mut headers);
    assert_eq!(headers["content-type"], "application/json");
}

#[test]
fn unit_and_string_query_parameters() {
    assert!(matches!(().http_request_query_string(), Ok(None)));
    assert_eq!("limit=10".to_string().http_request_query_string().expect("query"), Some("limit=10".to_string()));
}

fn response(status: u16, body: &[u8]) -> ReceivedResponse {
    ReceivedResponse { status, headers: empty_headers(), body: body.to_vec() }
}

#[test]
fn response_status_is_checked() {
    assert!(check_response_status(response(200, b"")).is_ok());
    assert!(check_response_status(response(299, b"")).is_ok());
    match check_response_status(response(500, b"oops")) {
        Err(RequestError::NonSuccessStatus { status, body }) => {
            assert_eq!(status, 500);
            assert_eq!(body, b"oops".to_vec());
        },
        other => panic!("unexpected {:?}", other),
    }
    assert!(check_response_status(response(199, b"")).is_err());
    assert!(check_response_status(response(300, b"")).is_err());
}

#[test]
fn string_responses_are_json_strings() {
    assert_eq!(String::from_http_response(response(200, b"\"hello\"")).expect("string"), "hello");
    assert!(matches!(String::from_http_response(response(200, b"{\"id\":1")), Err(RequestError::Json { .. })));
}

struct Info;

impl HttpRequest for Info {
    type Response = String;
    type Query = String;
    type Body = String;

    const METHOD: HttpMethod = HttpMethod::Patch;

    fn path(&self) -> String {
        "/hello/world".to_string()
    }
}

#[test]
fn read_response_refuses_a_failed_status() {
    let res = Info::read_response(response(500, b"\"ignored\""));
    assert!(matches!(res, Err(RequestError::NonSuccessStatus { status: 500, .. })));
    assert!(res.unwrap_err().is_internal_server_error());
    assert_eq!(Info::read_response(response(201, b"\"made\"")).expect("string"), "made");
    assert!(matches!(Info::read_response(response(200, b"not json")), Err(RequestError::Json { .. })));
}

#[test]
fn request_without_body_or_query_has_no_headers() {
    let base = Url::parse("https://example.com/v1/").expect("parse url");
    let request = Info.to_http_request(&base).expect("request");
    assert_eq!(request.uri(), "https://example.com/v1/hello/world");
    assert_eq!(request.method(), HttpMethod::Patch);
    assert!(request.headers().is_empty());
    assert!(request.body().is_empty());
}

#[test]
fn json_result_wraps_serde_errors() {
    let ok: Result<u8, RequestError> = json_result(serde_json::from_slice::<u8>(b"7"));
    assert_eq!(ok.expect("number"), 7);
    let err = json_result(serde_json::from_slice::<u8>(b"x"));
    assert!(matches!(err, Err(RequestError::Json { .. })));
}

#[test]
fn prepared_request_keeps_every_header_value_in_order() {
    let mut headers = empty_headers();
    headers.append("x-tag", http::HeaderValue::from_static("one"));
    headers.append("x-tag", http::HeaderValue::from_static("two"));
    headers.append("accept", http::HeaderValue::from_static("text/plain"));
    let request = http_request_derive::PreparedRequest {
        method: HttpMethod::Put,
        uri: "https://example.com/a?b=c".to_string(),
        headers,
        body: b"payload".to_vec(),
    };
    let http_request = request.into_http_request().expect("http request");
    assert_eq!(http_request.method(), http::Method::PUT);
    assert_eq!(http_request.uri().to_string(), "https://example.com/a?b=c");
    let tags: Vec<&str> = http_request.headers().get_all("x-tag").iter().map(|v| v.to_str().expect("ascii")).collect();
    assert_eq!(tags, vec!["one", "two"]);
    assert_eq!(http_request.headers()["accept"], "text/plain");
    assert_eq!(http_request.headers().keys_len(), 2);
    assert_eq!(http_request.body(), &b"payload".to_vec());
}

#[test]
fn string_bodies_escape_control_characters() {
    let body = "\u{1}\n\t\u{8}\u{c}\r\\/\u{1f}é".to_string();
    assert_eq!(body.to_vec().expect("json"), b"\"\\u0001\\n\\t\\b\\f\\r\\\\/\\u001f\xc3\xa9\"".to_vec());
}

struct PlainBody;

impl HttpRequestBody for PlainBody {
    fn to_vec(&self) -> Result<Vec<u8>, RequestError> {
        Ok(b"raw".to_vec())
    }
}

#[test]
fn default_body_headers_leave_the_map_unchanged() {
    let mut headers = empty_headers();
    headers.append("accept", http::HeaderValue::from_static("text/plain"));
    PlainBody.apply_headers(&mut headers);
    assert_eq!(headers.len(), 1);
    assert_eq!(headers["accept"], "text/plain");
}
