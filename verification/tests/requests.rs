use http::HeaderValue;
use http_request_derive::{
    apply_json_content_type, query_string_from_serde, FromHttpResponse, HttpMethod, HttpRequest,
    HttpRequestBody, HttpRequestQueryParams, ReceivedResponse, RequestError, Url,
};
use serde::ser::SerializeStruct;

#[test]
fn simple_get_request() {
    struct SimpleGetRequest;

    impl HttpRequest for SimpleGetRequest {
        type Response = String;
        type Query = ();
        type Body = ();

        const METHOD: HttpMethod = HttpMethod::Get;

        fn path(&self) -> String {
            format!("/info")
        }
    }

    let base_url = Url::parse("https://example.com/").expect("parse url");

    let request = SimpleGetRequest;

    let http_request = request
        .to_http_request(&base_url)
        .expect("build http request");

    assert_eq!(&http_request.uri().to_string(), "https://example.com/info");
    assert_eq!(http_request.method(), HttpMethod::Get);
    assert!(http_request.into_body().is_empty());
}

#[test]
fn simple_json_post_request() {
    struct MyRequestQuery {
        start_x: usize,
        end_x: usize,
        start_y: usize,
        end_y: usize,
    }

    impl serde::Serialize for MyRequestQuery {
        fn serialize<S: serde::Serializer>(&self, serializer: S) -> Result<S::Ok, S::Error> {
            let mut s = serializer.serialize_struct("MyRequestQuery", 4)?;
            s.serialize_field("start_x", &self.start_x)?;
            s.serialize_field("end_x", &self.end_x)?;
            s.serialize_field("start_y", &self.start_y)?;
            s.serialize_field("end_y", &self.end_y)?;
            s.end()
        }
    }

    impl HttpRequestQueryParams for MyRequestQuery {
        fn http_request_query_string(&self) -> Result<Option<String>, RequestError> {
            query_string_from_serde(serde_json::to_value(self), || serde_url_params::to_string(self))
        }
    }

    struct MyRequestBody {
        x: usize,
        y: usize,
    }

    impl serde::Serialize for MyRequestBody {
        fn serialize<S: serde::Serializer>(&self, serializer: S) -> Result<S::Ok, S::Error> {
            let mut s = serializer.serialize_struct("MyRequestBody", 2)?;
            s.serialize_field("x", &self.x)?;
            s.serialize_field("y", &self.y)?;
            s.end()
        }
    }

    impl HttpRequestBody for MyRequestBody {
        fn to_vec(&self) -> Result<Vec<u8>, RequestError> {
            serde_json::to_vec(self).map_err(|source| RequestError::Json { source })
        }

        fn apply_headers(&self, headers: &mut http::HeaderMap) {
            apply_json_content_type(headers);
        }
    }

    struct MyResponse {}

    impl FromHttpResponse for MyResponse {
        fn from_http_response(http_response: ReceivedResponse) -> Result<Self, RequestError> {
            serde_json::from_slice::<serde_json::Value>(&http_response.body)
                .map(|_| MyResponse {})
                .map_err(|source| RequestError::Json { source })
        }
    }

    struct MyRequest {
        query: MyRequestQuery,
        body: MyRequestBody,
        id: usize,
    }

    impl HttpRequest for MyRequest {
        type Response = MyResponse;
        type Query = MyRequestQuery;
        type Body = MyRequestBody;

        const METHOD: HttpMethod = HttpMethod::Post;

        fn path(&self) -> String {
            format!("/books/{id}/abstract", id = self.id)
        }

        fn query(&self) -> Option<&MyRequestQuery> {
            Some(&self.query)
        }

        fn body(&self) -> Option<&MyRequestBody> {
            Some(&self.body)
        }
    }

    let base_url = Url::parse("https://example.com/").expect("parse url");
    let query = MyRequestQuery {
        start_x: 10,
        end_x: 50,
        start_y: 20,
        end_y: 30,
    };
    let body = MyRequestBody { x: 10, y: 20 };
    let request = MyRequest {
        query,
        body,
        id: 55,
    };

    let http_request = request
        .to_http_request(&base_url)
        .expect("build http request");

    assert_eq!(
        &http_request.uri().to_string(),
        "https://example.com/books/55/abstract?start_x=10&end_x=50&start_y=20&end_y=30"
    );
    assert_eq!(http_request.method(), HttpMethod::Post);
    assert_eq!(http_request.headers().len(), 1);
    assert_eq!(
        http_request.headers().get("content-type"),
        Some(&HeaderValue::from_str("application/json").unwrap())
    );

    let http_request_body: serde_json::Value =
        serde_json::from_slice(&http_request.into_body()).expect("json");
    let mut expected = serde_json::Map::new();
    expected.insert("x".to_string(), serde_json::Value::from(10));
    expected.insert("y".to_string(), serde_json::Value::from(20));
    assert_eq!(http_request_body, serde_json::Value::Object(expected));
}
