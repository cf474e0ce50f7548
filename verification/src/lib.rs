//! Building HTTP requests from request descriptions and reading typed
//! responses, with the decisions of the request derive made explicit.

mod base_url;
mod error;
mod har;
mod headers;
mod json;
mod method;
mod path;
mod request;
mod request_derive;
mod text;

pub use base_url::Url;
pub use error::{Location, RequestError};
pub use har::{
    extract_query, har_request, har_response, HarHeader, HarPostData, HarRequest, HarResponse, QueryPair,
};
pub use headers::{apply_header_field, apply_json_content_type};
pub use json::{json_result, query_string_from_serde, query_string_from_shape, JsonShape};
pub use method::HttpMethod;
pub use path::path_segments;
pub use request::{
    assemble_request, check_response_status, FromHttpResponse, HttpRequest, HttpRequestBody,
    HttpRequestQueryParams, PreparedRequest, ReceivedResponse,
};
pub use request_derive::{
    attribute_name, expand_format_string, extract_fields, plan_request, DeriveData, FieldIdentifier,
    FieldReceiver, FieldRef, FieldType, Fields, FieldsStyle, FormatArgs, MacroError, RequestParameters,
    RequestPlan,
};
