# http_request_derive

A library for describing HTTP requests as types and reading typed responses
back, written in Verus.

- `src/` is the verified library: request assembly relative to a base URL
  (`assemble_request`, `HttpRequest::to_http_request`), response status
  checks (`check_response_status`, `HttpRequest::read_response`), the query
  and body conventions for JSON (`query_string_from_serde`,
  `apply_json_content_type`), the error type and its status predicates, the
  decisions of the request derive (`HttpMethod::from_string`,
  `expand_format_string`, `extract_fields`, `plan_request`) and what a HAR
  log records of an exchange (`extract_query`, `har_request`,
  `har_response`). Calls into `url`, `http`, `serde_json` and the standard
  library go through small trusted functions whose contracts are stated in
  their doc comments.
- `app/` holds what talks to the network, the clock and the file system
  (`ReqwestClient`, `HarLogger`, `HttpLogger`), the serde glue for user
  types, and the token generation of the derive.
- `tests/` exercises the library on concrete values.
