use vstd::prelude::*;

use crate::base_url::{option_view, uri_text, url_with_query, url_with_segments, Url};
use crate::error::RequestError;
use crate::headers::{has_room, header_entries, header_map_new, no_headers};
use crate::method::HttpMethod;
use crate::path::{lemma_path_segments_leading_slash, path_segments, spec_path_segments};

verus! {

/// Declares `http::Request`, the request that is handed to an HTTP client.
#[verifier::external_type_specification]
#[verifier::external_body]
#[verifier::reject_recursive_types(T)]
pub struct ExHttpRequest<T>(http::Request<T>);

/// A request, as it is built from a request description.
#[derive(Debug)]
pub struct PreparedRequest {
    /// The method the request is sent with
    pub method: HttpMethod,
    /// The text of the URI the request is sent to
    pub uri: String,
    /// The headers of the request
    pub headers: http::HeaderMap,
    /// The body of the request
    pub body: Vec<u8>,
}

/// A response, as it is read back into a typed response.
#[derive(Debug)]
pub struct ReceivedResponse {
    /// The status code of the response
    pub status: u16,
    /// The headers of the response
    pub headers: http::HeaderMap,
    /// The body of the response
    pub body: Vec<u8>,
}

/// What a built `http::Request` holds: the name of its method, the text of
/// its URI, its headers (as `header_entries` gives them) and its body.
pub uninterp spec fn request_parts(request: http::Request<Vec<u8>>) -> (
    Seq<char>,
    Seq<char>,
    Map<Seq<char>, Seq<Seq<u8>>>,
    Seq<u8>,
);

/// Builds an `http::Request` from its method, URI, headers and body.
///
/// Trusted: calls `http::request::Builder` with `method`, `uri`, `header`
/// for every name and value of `headers` in turn, and `body`. The method is
/// one of the `http::Method` constants; the URI text is parsed as
/// `str::parse::<http::Uri>` parses it (`TryFrom<&str> for Uri`), so the
/// builder fails where it does not parse; names and values are cloned
/// (`From<&HeaderName>`, `From<&HeaderValue>`) and appended with
/// `HeaderMap::try_append` to a fresh map, which fails only where the map
/// would outgrow its size limit, and cannot for a map below
/// `header_name_limit`. The request then holds the method, the parsed URI,
/// every value of every name in order, and the body.
#[verifier::external_body]
fn build_http_request(method: HttpMethod, uri: &str, headers: &http::HeaderMap, body: Vec<u8>) -> (res: Result<
    http::Request<Vec<u8>>,
    http::Error,
>)
    ensures
        res is Ok ==> uri_text(uri@) is Some,
        uri_text(uri@) is Some && has_room(header_entries(*headers)) ==> res is Ok,
        res matches Ok(r) ==> request_parts(r) == (
            method.spec_name(),
            uri_text(uri@)->Some_0,
            header_entries(*headers),
            body@,
        ),
{
    let method = match method {
        HttpMethod::Get => http::Method::GET,
        HttpMethod::Post => http::Method::POST,
        HttpMethod::Put => http::Method::PUT,
        HttpMethod::Delete => http::Method::DELETE,
        HttpMethod::Head => http::Method::HEAD,
        HttpMethod::Options => http::Method::OPTIONS,
        HttpMethod::Connect => http::Method::CONNECT,
        HttpMethod::Patch => http::Method::PATCH,
        HttpMethod::Trace => http::Method::TRACE,
    };
    let mut builder = http::request::Builder::new().method(method).uri(uri);
    for (name, value) in headers { builder = builder.header(name, value); }
    builder.body(body)
}

impl PreparedRequest {
    /// The method the request is sent with.
    pub fn method(&self) -> (res: HttpMethod)
        ensures
            res == self.method,
    {
        self.method
    }

    /// The text of the URI the request is sent to.
    pub fn uri(&self) -> (res: &str)
        ensures
            res@ == self.uri@,
    {
        self.uri.as_str()
    }

    /// The headers of the request.
    pub fn headers(&self) -> (res: &http::HeaderMap)
        ensures
            res == self.headers,
    {
        &self.headers
    }

    /// The body of the request.
    pub fn body(&self) -> (res: &Vec<u8>)
        ensures
            res@ == self.body@,
    {
        &self.body
    }

    /// The body of the request, taken out of it.
    pub fn into_body(self) -> (res: Vec<u8>)
        ensures
            res@ == self.body@,
    {
        self.body
    }

    /// Converts the request into an `http::Request` with the same method,
    /// URI, headers and body; it fails where the text of its URI does not
    /// parse as a URI, succeeds where it does and the headers are below the
    /// size limit, and a failure of the builder becomes
    /// `RequestError::BuildRequest`.
    pub fn into_http_request(self) -> (res: Result<http::Request<Vec<u8>>, RequestError>)
        ensures
            res is Ok ==> uri_text(self.uri@) is Some,
            uri_text(self.uri@) is Some && has_room(header_entries(self.headers)) ==> res is Ok,
            res matches Ok(r) ==> request_parts(r) == (
                self.method.spec_name(),
                uri_text(self.uri@)->Some_0,
                header_entries(self.headers),
                self.body@,
            ),
            res matches Err(e) ==> e is BuildRequest,
    {
        match build_http_request(self.method, self.uri.as_str(), &self.headers, self.body) {
            Ok(r) => Ok(r),
            Err(source) => Err(RequestError::BuildRequest { source }),
        }
    }
}

/// Whether a status code reports success: the codes from 200 to 299.
pub open spec fn is_success_status(status: u16) -> bool {
    200 <= status && status < 300
}

/// Lets a response through where its status reports success, and otherwise
/// turns it into `RequestError::NonSuccessStatus` with its status and body.
pub fn check_response_status(response: ReceivedResponse) -> (res: Result<ReceivedResponse, RequestError>)
    ensures
        is_success_status(response.status) ==> res == Ok::<ReceivedResponse, RequestError>(response),
        !is_success_status(response.status) ==> (res matches Err(RequestError::NonSuccessStatus { status, body })
            && status == response.status && body@ == response.body@),
{
    if 200 <= response.status && response.status < 300 {
        Ok(response)
    } else {
        Err(RequestError::NonSuccessStatus { status: response.status, body: response.body })
    }
}

/// The URL that a request path and query give relative to a base URL:
/// `None` where the base URL cannot be a base. A query of `None` leaves the
/// query of the base URL; a query of `Some(q)` replaces it with `q`.
pub open spec fn spec_request_url(base: Seq<char>, path: Seq<char>, query: Option<Option<Seq<char>>>) -> Option<
    Seq<char>,
> {
    match url_with_segments(base, spec_path_segments(path)) {
        None => None,
        Some(u) => match query {
            None => Some(u),
            Some(q) => Some(url_with_query(u, q)),
        },
    }
}

/// A request path with a slash at its start gives the same request URL as
/// the path without it.
pub proof fn lemma_request_url_leading_slash(base: Seq<char>, path: Seq<char>, query: Option<Option<Seq<char>>>)
    ensures
        spec_request_url(base, seq!['/'] + path, query) == spec_request_url(base, path, query),
{
    lemma_path_segments_leading_slash(path);
}

/// The query that the outcome of building a query string gives, where it
/// gives one.
pub open spec fn query_outcome_view(query: Option<Result<Option<String>, RequestError>>) -> Option<
    Option<Seq<char>>,
> {
    match query {
        Some(Ok(q)) => Some(option_view(q)),
        _ => None,
    }
}

/// What assembling a request gives, from the method, the base URL, the
/// path, the outcome of serializing the body, the outcome of building the
/// query string (`None` where there is no query) and the headers.
///
/// The errors come in this order: that of the body, a base URL that cannot
/// be a base, that of the query, a URL that is no valid URI. Otherwise the
/// request has the method, the URI text of the URL that the path and query
/// give relative to the base URL, the body bytes and the headers.
pub open spec fn assembled(
    method: HttpMethod,
    base: Seq<char>,
    path: Seq<char>,
    body: Result<Vec<u8>, RequestError>,
    query: Option<Result<Option<String>, RequestError>>,
    headers: Map<Seq<char>, Seq<Seq<u8>>>,
    res: Result<PreparedRequest, RequestError>,
) -> bool {
    match body {
        Err(e) => res == Err::<PreparedRequest, RequestError>(e),
        Ok(bytes) => match url_with_segments(base, spec_path_segments(path)) {
            None => res matches Err(RequestError::UrlCannotBeABase { url }) && url@ == base,
            Some(_) => match query {
                Some(Err(e)) => res == Err::<PreparedRequest, RequestError>(e),
                _ => match uri_text(spec_request_url(base, path, query_outcome_view(query))->Some_0) {
                    None => res matches Err(RequestError::ParseUri { .. }),
                    Some(text) => res matches Ok(r) && r.method == method && r.uri@ == text && r.body@
                        == bytes@ && header_entries(r.headers) == headers,
                },
            },
        },
    }
}

/// Assembles a request from what a request description gives: the method,
/// the path relative to `base_url`, the outcome of serializing the body
/// (`Ok` of no bytes where there is no body), the outcome of building the
/// query string (`None` where there is no query) and the headers, as
/// [`assembled`] states.
pub fn assemble_request(
    method: HttpMethod,
    base_url: &Url,
    path: &str,
    body: Result<Vec<u8>, RequestError>,
    query: Option<Result<Option<String>, RequestError>>,
    headers: http::HeaderMap,
) -> (res: Result<PreparedRequest, RequestError>)
    ensures
        assembled(method, base_url@, path@, body, query, header_entries(headers), res),
{
    let body = match body {
        Ok(b) => b,
        Err(e) => return Err(e),
    };
    let segments = path_segments(path);
    let url = match base_url.with_path_segments(&segments) {
        Some(u) => u,
        None => return Err(RequestError::UrlCannotBeABase { url: base_url.as_str().to_owned() }),
    };
    let url = match query {
        None => url,
        Some(Ok(q)) => url.with_query(&q),
        Some(Err(e)) => return Err(e),
    };
    match url.to_uri() {
        Ok(uri) => Ok(PreparedRequest { method, uri, headers, body }),
        Err(source) => Err(RequestError::ParseUri { source }),
    }
}

/// Reads the query string of a query parameter type.
pub trait HttpRequestQueryParams {
    /// Build the HTTP request query string
    fn http_request_query_string(&self) -> Result<Option<String>, RequestError>;
}

impl HttpRequestQueryParams for () {
    fn http_request_query_string(&self) -> (res: Result<Option<String>, RequestError>)
        ensures
            res == Ok::<Option<String>, RequestError>(None),
    {
        Ok(None)
    }
}

impl HttpRequestQueryParams for String {
    fn http_request_query_string(&self) -> (res: Result<Option<String>, RequestError>)
        ensures
            res matches Ok(Some(s)) && s@ == self@,
    {
        Ok(Some(self.clone()))
    }
}

/// Trait defined on every body type that can be used with [`HttpRequest`].
pub trait HttpRequestBody {
    /// Convert the request contents to a [`Vec<u8>`].
    fn to_vec(&self) -> Result<Vec<u8>, RequestError>;

    /// Apply the headers that this body requires for the request to be valid.
    /// This will usually add a `content-type` header.
    fn apply_headers(&self, headers: &mut http::HeaderMap)
        requires
            has_room(header_entries(*old(headers))),
        default_ensures
            *final(headers) == *old(headers),
    {
    }
}

/// Trait for types that can be converted from a [`ReceivedResponse`]
pub trait FromHttpResponse: Sized {
    /// Convert from a [`ReceivedResponse`] to our response type
    fn from_http_response(http_response: ReceivedResponse) -> Result<Self, RequestError>;
}

/// A trait implemented for types that are sent to the API as parameters
pub trait HttpRequest {
    /// The response type that is expected to the request
    type Response: FromHttpResponse;

    /// The query type that is sent to the API endpoint
    type Query: HttpRequestQueryParams;

    /// The body type that is sent to the API endpoint
    type Body: HttpRequestBody;

    /// The method used to send the data to the API endpoint
    const METHOD: HttpMethod;

    /// Get the API endpoint path relative to the base URL
    fn path(&self) -> String;

    /// Get query parameters for the request; by default there are none
    fn query(&self) -> (res: Option<&Self::Query>)
        default_ensures
            res is None,
    {
        None
    }

    /// Get the body for the request; by default there is none
    fn body(&self) -> (res: Option<&Self::Body>)
        default_ensures
            res is None,
    {
        None
    }

    /// Get the headers for the request; by default, the headers that the
    /// body requires, and none without a body
    fn apply_headers(&self, headers: &mut http::HeaderMap)
        requires
            has_room(header_entries(*old(headers))),
        default_ensures
            exists|b: Option<&Self::Body>|
                #[trigger] call_ensures(Self::body, (self,), b) && match b {
                    None => *final(headers) == *old(headers),
                    Some(b) => exists|m: &mut http::HeaderMap|
                        #[trigger] call_ensures(<Self::Body as HttpRequestBody>::apply_headers, (b, m), ())
                            && mut_ref_current(m) == *old(headers) && mut_ref_future(m) == *final(headers),
                },
    {
        if let Some(body) = self.body() {
            body.apply_headers(headers);
        }
    }

    /// Build a request from the request type: the method of the type, the
    /// path and query that the value gives relative to `base_url`, the
    /// serialized body (no bytes without a body) and the headers that
    /// `apply_headers` leaves in an empty map, assembled as [`assembled`]
    /// states.
    fn to_http_request(&self, base_url: &Url) -> (res: Result<PreparedRequest, RequestError>)
        ensures
            exists|path: String, b: Option<&Self::Body>, q: Option<&Self::Query>, headers: &mut http::HeaderMap|
                #![trigger call_ensures(Self::path, (self,), path), call_ensures(Self::body, (self,), b), call_ensures(Self::query, (self,), q), call_ensures(Self::apply_headers, (self, headers), ())]
                {
                    &&& call_ensures(Self::path, (self,), path)
                    &&& call_ensures(Self::body, (self,), b)
                    &&& call_ensures(Self::query, (self,), q)
                    &&& call_ensures(Self::apply_headers, (self, headers), ())
                    &&& header_entries(mut_ref_current(headers)) == no_headers()
                    &&& exists|body: Result<Vec<u8>, RequestError>, query: Option<Result<Option<String>, RequestError>>|
                        #![trigger assembled(Self::METHOD, base_url@, path@, body, query, header_entries(mut_ref_future(headers)), res)]
                        {
                            &&& match b {
                                None => body matches Ok(v) && v@ == Seq::<u8>::empty(),
                                Some(b) => call_ensures(<Self::Body as HttpRequestBody>::to_vec, (b,), body),
                            }
                            &&& match q {
                                None => query is None,
                                Some(q) => query matches Some(r) && call_ensures(
                                    <Self::Query as HttpRequestQueryParams>::http_request_query_string,
                                    (q,),
                                    r,
                                ),
                            }
                            &&& assembled(Self::METHOD, base_url@, path@, body, query, header_entries(mut_ref_future(headers)), res)
                        }
                },
    {
        let body = match self.body() {
            Some(b) => b.to_vec(),
            None => Ok(Vec::new()),
        };
        let query = match self.query() {
            Some(q) => Some(q.http_request_query_string()),
            None => None,
        };
        let mut headers = header_map_new();
        self.apply_headers(&mut headers);
        let path = self.path();
        assemble_request(Self::METHOD, base_url, path.as_str(), body, query, headers)
    }

    /// Convert the response: a status that does not report success is an
    /// error, any other response is read by the response type.
    fn read_response(response: ReceivedResponse) -> (res: Result<Self::Response, RequestError>)
        ensures
            !is_success_status(response.status) ==> (res matches Err(RequestError::NonSuccessStatus { status, body })
                && status == response.status && body@ == response.body@),
            res is Ok ==> is_success_status(response.status),
            is_success_status(response.status) ==> call_ensures(
                <Self::Response as FromHttpResponse>::from_http_response,
                (response,),
                res,
            ),
    {
        match check_response_status(response) {
            Ok(r) => Self::Response::from_http_response(r),
            Err(e) => Err(e),
        }
    }
}

} // verus!
