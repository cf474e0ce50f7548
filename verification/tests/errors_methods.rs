use http_request_derive::{HttpMethod, Location, MacroError, RequestError};

fn status_error(status: u16) -> RequestError {
    RequestError::NonSuccessStatus { status, body: Vec::new() }
}

#[test]
fn status_predicates() {
    assert!(status_error(401).is_unauthorized());
    assert!(status_error(404).is_not_found());
    assert!(status_error(400).is_bad_request());
    assert!(status_error(500).is_internal_server_error());
    assert!(!status_error(500).is_not_found());
    assert!(status_error(418).is_http_error_status());
    assert!(status_error(418).is_specific_http_error_status(418));
    assert!(!status_error(418).is_specific_http_error_status(419));
}

#[test]
fn other_errors_have_no_status() {
    let custom = RequestError::custom(
        "broken".to_string(),
        Location { file: "lib.rs".to_string(), line: 3, column: 7 },
    );
    assert!(!custom.is_http_error_status());
    assert!(!custom.is_unauthorized());
    match custom {
        RequestError::Custom { message, location } => {
            assert_eq!(message, "broken");
            assert_eq!(location, Location { file: "lib.rs".to_string(), line: 3, column: 7 });
        },
        other => panic!("unexpected {:?}", other),
    }
    let query = RequestError::QueryString { message: "m".to_string() };
    assert!(!query.is_specific_http_error_status(400));
}

const ALL: [HttpMethod; 9] = [
    HttpMethod::Get,
    HttpMethod::Post,
    HttpMethod::Put,
    HttpMethod::Delete,
    HttpMethod::Head,
    HttpMethod::Options,
    HttpMethod::Connect,
    HttpMethod::Patch,
    HttpMethod::Trace,
];

#[test]
fn method_names_round_trip() {
    for m in ALL {
        assert_eq!(HttpMethod::from_string(m.as_str()).expect("method"), m);
        assert_eq!(HttpMethod::from_string(&m.as_str().to_lowercase()).expect("method"), m);
        assert_eq!(HttpMethod::from_upper_name(m.as_str()), Some(m));
    }
    assert_eq!(HttpMethod::Options.as_str(), "OPTIONS");
}

#[test]
fn method_names_are_case_insensitive() {
    assert_eq!(HttpMethod::from_string("poSt").expect("method"), HttpMethod::Post);
    assert_eq!(HttpMethod::from_upper_name("post"), None);
}

#[test]
fn unknown_method_is_refused() {
    match HttpMethod::from_string("fetch") {
        Err(MacroError::UnknownValue { value }) => assert_eq!(value, "fetch"),
        other => panic!("unexpected {:?}", other),
    }
}
