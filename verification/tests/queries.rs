use http_request_derive::{extract_query, query_string_from_serde, query_string_from_shape, JsonShape, RequestError};

fn pairs(query: &str) -> Vec<(String, String)> {
    extract_query(query).into_iter().map(|p| (p.name, p.value)).collect()
}

fn owned(v: &[(&str, &str)]) -> Vec<(String, String)> {
    v.iter().map(|(a, b)| (a.to_string(), b.to_string())).collect()
}

#[test]
fn extract_query_splits_pairs() {
    assert_eq!(pairs("a=1&b=2"), owned(&[("a", "1"), ("b", "2")]));
    assert_eq!(pairs("a&b="), owned(&[("a", ""), ("b", "")]));
    assert_eq!(pairs("=v&a=b=c"), owned(&[("", "v"), ("a", "b=c")]));
    assert_eq!(pairs("&&x&"), owned(&[("x", "")]));
    assert!(pairs("").is_empty());
}

#[test]
fn extract_query_renders_back() {
    let query = "start_x=10&end_x=50&flag=";
    let rendered: Vec<String> = extract_query(query).iter().map(|p| format!("{}={}", p.name, p.value)).collect();
    assert_eq!(rendered.join("&"), query);
}

fn no_object() -> Result<String, serde_url_params::Error> {
    panic!("not an object")
}

#[test]
fn query_from_json_shapes() {
    assert!(matches!(query_string_from_shape(JsonShape::Null, no_object), Ok(None)));
    assert_eq!(
        query_string_from_shape(JsonShape::String("q=1".to_string()), no_object).expect("query"),
        Some("q=1".to_string())
    );
    for shape in [JsonShape::Bool, JsonShape::Number, JsonShape::Array] {
        match query_string_from_shape(shape, no_object) {
            Err(RequestError::QueryString { message }) => {
                assert_eq!(message, "query item must serialize to `null`, `string`, or `object`")
            },
            other => panic!("unexpected {:?}", other),
        }
    }
    assert_eq!(
        query_string_from_shape(JsonShape::Object, || Ok("a=1".to_string())).expect("query"),
        Some("a=1".to_string())
    );
}

#[test]
fn query_from_serde_values() {
    let text = "x=1".to_string();
    assert_eq!(
        query_string_from_serde(serde_json::to_value(&text), no_object).expect("query"),
        Some("x=1".to_string())
    );
    assert!(matches!(query_string_from_serde(serde_json::to_value(()), no_object), Ok(None)));
    assert!(matches!(
        query_string_from_serde(serde_json::to_value(5u8), no_object),
        Err(RequestError::QueryString { .. })
    ));
    let mut map = std::collections::BTreeMap::new();
    map.insert("limit", 10);
    let encoded = query_string_from_serde(serde_json::to_value(&map), || serde_url_params::to_string(&map));
    assert_eq!(encoded.expect("query"), Some("limit=10".to_string()));
    let refused = query_string_from_serde(serde_json::to_value(&map), || serde_url_params::to_string(&5u8));
    assert!(matches!(refused, Err(RequestError::SerdeUrlParams { .. })));
}
