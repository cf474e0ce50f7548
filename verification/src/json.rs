use vstd::prelude::*;

use crate::error::RequestError;
use crate::headers::{apply_json_content_type, ascii_bytes, header_entries, spec_with_json_content_type};
use crate::request::{FromHttpResponse, HttpRequestBody, ReceivedResponse};

verus! {

/// Declares `serde_json::Value`, a parsed JSON value.
#[verifier::external_type_specification]
#[verifier::external_body]
pub struct ExJsonValue(serde_json::Value);

/// The lower-case hexadecimal digit of a number below 16.
pub open spec fn hex_digit(n: u32) -> u8 {
    if n < 10 {
        (48 + n) as u8
    } else {
        (87 + n) as u8
    }
}

/// The bytes that stand for one character inside a JSON string literal:
/// `"`, `\` and the control characters below U+0020 are escaped (with a
/// short escape where JSON has one, else `\u00` and two lower-case hex
/// digits), and any other character is its UTF-8 encoding.
pub open spec fn json_escaped_char(c: char) -> Seq<u8> {
    let n = c as u32;
    if c == '"' {
        seq![92u8, 34u8]
    } else if c == '\\' {
        seq![92u8, 92u8]
    } else if n == 8 {
        seq![92u8, 98u8]
    } else if n == 9 {
        seq![92u8, 116u8]
    } else if n == 10 {
        seq![92u8, 110u8]
    } else if n == 12 {
        seq![92u8, 102u8]
    } else if n == 13 {
        seq![92u8, 114u8]
    } else if n < 32 {
        seq![92u8, 117u8, 48u8, 48u8, hex_digit(n / 16), hex_digit(n % 16)]
    } else {
        vstd::utf8::encode_scalar(n)
    }
}

/// The escaped characters of a string, one after the other.
pub open spec fn json_escaped(s: Seq<char>) -> Seq<u8>
    decreases s.len(),
{
    if s.len() == 0 {
        Seq::empty()
    } else {
        json_escaped_char(s[0]) + json_escaped(s.drop_first())
    }
}

/// A string as a JSON string literal: its escaped characters between
/// double quotes.
pub open spec fn json_encode_string(s: Seq<char>) -> Seq<u8> {
    seq![34u8] + json_escaped(s) + seq![34u8]
}

/// The string that `serde_json::from_slice::<String>` reads from some bytes,
/// if they hold a JSON string.
pub uninterp spec fn json_decode_string(bytes: Seq<u8>) -> Option<Seq<char>>;

/// Serializes a string as JSON.
///
/// Trusted: calls `serde_json::to_vec`, which serializes a string with
/// `format_escaped_str`: a `"`, the characters as its `ESCAPE` table and
/// `write_char_escape` escape them, and a `"`, as `json_encode_string`
/// states. serde_json documents that serialization fails only where the
/// value's `Serialize` impl fails or a map has non-string keys, neither of
/// which a string has.
#[verifier::external_body]
fn json_string_to_vec(s: &String) -> (res: Result<Vec<u8>, serde_json::Error>)
    ensures
        res is Ok,
        res is Ok ==> res->Ok_0@ == json_encode_string(s@),
{
    serde_json::to_vec(s)
}

/// Reads a JSON string.
///
/// Trusted: calls `serde_json::from_slice::<String>`. The result is named by
/// `json_decode_string`.
#[verifier::external_body]
fn json_string_from_slice(bytes: &[u8]) -> (res: Result<String, serde_json::Error>)
    ensures
        res matches Ok(s) ==> json_decode_string(bytes@) == Some(s@),
        res is Err ==> json_decode_string(bytes@) is None,
{
    serde_json::from_slice::<String>(bytes)
}

/// The kind of JSON value that a query parameter type serializes to.
#[derive(Debug)]
pub enum JsonShape {
    Null,
    Bool,
    Number,
    String(String),
    Array,
    Object,
}

/// The kind of a JSON value, with the text of a string.
pub uninterp spec fn json_shape_of(value: serde_json::Value) -> JsonShape;

/// Tells the kinds of JSON value apart.
///
/// Trusted: matches on the variants of `serde_json::Value`, one arm each,
/// keeping the text of a string. The result is named by `json_shape_of`.
#[verifier::external_body]
fn json_value_shape(value: serde_json::Value) -> (res: JsonShape)
    ensures
        res == json_shape_of(value),
{
    match value {
        serde_json::Value::Null => JsonShape::Null,
        serde_json::Value::Bool(_) => JsonShape::Bool,
        serde_json::Value::Number(_) => JsonShape::Number,
        serde_json::Value::String(s) => JsonShape::String(s),
        serde_json::Value::Array(_) => JsonShape::Array,
        serde_json::Value::Object(_) => JsonShape::Object,
    }
}

/// The message of the error for a query value that is neither `null`, a
/// string nor an object.
pub open spec fn spec_query_kind_message() -> Seq<char> {
    "query item must serialize to `null`, `string`, or `object`"@
}

/// Whether `res` is the query string of a query parameter type that
/// serializes to a JSON value of the kind `shape`: `null` gives no query, a
/// string is the query itself, an object is encoded as URL parameters by
/// `encode_object` (whose error becomes `RequestError::SerdeUrlParams`), and
/// any other kind is refused.
pub open spec fn query_from_shape<F: FnOnce() -> Result<String, serde_url_params::Error>>(
    shape: JsonShape,
    encode_object: F,
    res: Result<Option<String>, RequestError>,
) -> bool {
    match shape {
        JsonShape::Null => res == Ok::<Option<String>, RequestError>(None),
        JsonShape::String(s) => res == Ok::<Option<String>, RequestError>(Some(s)),
        JsonShape::Object => exists|r: Result<String, serde_url_params::Error>|
            #[trigger] encode_object.ensures((), r) && match r {
                Ok(q) => res == Ok::<Option<String>, RequestError>(Some(q)),
                Err(e) => res == Err::<Option<String>, RequestError>(RequestError::SerdeUrlParams { source: e }),
            },
        _ => res matches Err(RequestError::QueryString { message }) && message@ == spec_query_kind_message(),
    }
}

/// The query string of a query parameter type from the kind of JSON value
/// it serializes to, as [`query_from_shape`] states.
pub fn query_string_from_shape<F>(shape: JsonShape, encode_object: F) -> (res: Result<
    Option<String>,
    RequestError,
>) where F: FnOnce() -> Result<String, serde_url_params::Error>
    requires
        encode_object.requires(()),
    ensures
        query_from_shape(shape, encode_object, res),
{
    match shape {
        JsonShape::Null => Ok(None),
        JsonShape::String(s) => Ok(Some(s)),
        JsonShape::Bool | JsonShape::Number | JsonShape::Array => Err(RequestError::QueryString {
            message: "query item must serialize to `null`, `string`, or `object`".to_owned(),
        }),
        JsonShape::Object => match encode_object() {
            Ok(q) => Ok(Some(q)),
            Err(source) => Err(RequestError::SerdeUrlParams { source }),
        },
    }
}

/// The query string of a query parameter type from its serialization to a
/// JSON value (`serde_json::to_value`); a failed serialization is a JSON
/// error, and otherwise [`query_string_from_shape`] decides.
pub fn query_string_from_serde<F>(value: Result<serde_json::Value, serde_json::Error>, encode_object: F) -> (res: Result<
    Option<String>,
    RequestError,
>) where F: FnOnce() -> Result<String, serde_url_params::Error>
    requires
        encode_object.requires(()),
    ensures
        value is Err ==> res == Err::<Option<String>, RequestError>(RequestError::Json { source: value->Err_0 }),
        value matches Ok(v) ==> query_from_shape(json_shape_of(v), encode_object, res),
{
    match value {
        Ok(v) => query_string_from_shape(json_value_shape(v), encode_object),
        Err(source) => Err(RequestError::Json { source }),
    }
}

/// The outcome of a serde_json call, with its error as a JSON error of this
/// crate.
pub fn json_result<T>(outcome: Result<T, serde_json::Error>) -> (res: Result<T, RequestError>)
    ensures
        outcome matches Ok(v) ==> res == Ok::<T, RequestError>(v),
        outcome matches Err(e) ==> res == Err::<T, RequestError>(RequestError::Json { source: e }),
{
    match outcome {
        Ok(v) => Ok(v),
        Err(source) => Err(RequestError::Json { source }),
    }
}

/// Without a body type, the unit value stands for the body: it is the JSON
/// `null`, as serde_json writes the unit value, and asks for a JSON content
/// type.
impl HttpRequestBody for () {
    fn to_vec(&self) -> (res: Result<Vec<u8>, RequestError>)
        ensures
            res matches Ok(v) && v@ == ascii_bytes("null"@),
    {
        proof {
            reveal_strlit("null");
        }
        let v: Vec<u8> = vec![110u8, 117u8, 108u8, 108u8];
        assert(v@ =~= ascii_bytes("null"@));
        Ok(v)
    }

    fn apply_headers(&self, headers: &mut http::HeaderMap)
        ensures
            header_entries(*final(headers)) == spec_with_json_content_type(header_entries(*old(headers))),
    {
        apply_json_content_type(headers);
    }
}

/// A string body is sent as a JSON string, with a JSON content type.
impl HttpRequestBody for String {
    fn to_vec(&self) -> (res: Result<Vec<u8>, RequestError>)
        ensures
            res matches Ok(v) && v@ == json_encode_string(self@),
    {
        match json_string_to_vec(self) {
            Ok(v) => Ok(v),
            Err(source) => Err(RequestError::Json { source }),
        }
    }

    fn apply_headers(&self, headers: &mut http::HeaderMap)
        ensures
            header_entries(*final(headers)) == spec_with_json_content_type(header_entries(*old(headers))),
    {
        apply_json_content_type(headers);
    }
}

/// A string response is read as a JSON string from the body.
impl FromHttpResponse for String {
    fn from_http_response(http_response: ReceivedResponse) -> (res: Result<String, RequestError>)
        ensures
            res matches Ok(s) ==> json_decode_string(http_response.body@) == Some(s@),
            res is Err <==> json_decode_string(http_response.body@) is None,
            res matches Err(e) ==> e is Json,
    {
        match json_string_from_slice(http_response.body.as_slice()) {
            Ok(s) => Ok(s),
            Err(source) => Err(RequestError::Json { source }),
        }
    }
}

} // verus!
