use vstd::prelude::*;

use crate::text::{chars_of, join_with, lemma_join_split, split_on, split_str, string_from_chars, views};

verus! {

/// One name/value pair of a query string.
#[derive(Debug, Clone, PartialEq, Eq)]
pub struct QueryPair {
    pub name: String,
    pub value: String,
}

/// The position of the first occurrence of `c` in `s`, if any.
pub open spec fn find_char(s: Seq<char>, c: char) -> Option<int>
    decreases s.len(),
{
    if s.len() == 0 {
        None
    } else if s[0] == c {
        Some(0)
    } else {
        match find_char(s.drop_first(), c) {
            Some(i) => Some(i + 1),
            None => None,
        }
    }
}

/// The pair that one part of a query string gives: the text before and the
/// text after its first `=`; a part without `=` is a name with an empty
/// value, and an empty part gives no pair.
pub open spec fn spec_query_pair(part: Seq<char>) -> Option<(Seq<char>, Seq<char>)> {
    match find_char(part, '=') {
        Some(i) => Some((part.subrange(0, i), part.subrange(i + 1, part.len() as int))),
        None => if part.len() > 0 {
            Some((part, Seq::<char>::empty()))
        } else {
            None
        },
    }
}

/// The pairs of the parts of a query string, in order.
pub open spec fn spec_query_pairs(parts: Seq<Seq<char>>) -> Seq<(Seq<char>, Seq<char>)>
    decreases parts.len(),
{
    if parts.len() == 0 {
        Seq::empty()
    } else {
        let init = spec_query_pairs(parts.drop_last());
        match spec_query_pair(parts.last()) {
            Some(p) => init.push(p),
            None => init,
        }
    }
}

/// The pairs of a query string: its parts between `&`, each split at its
/// first `=`.
pub open spec fn spec_extract_query(query: Seq<char>) -> Seq<(Seq<char>, Seq<char>)> {
    spec_query_pairs(split_on(query, '&'))
}

/// The texts of query pairs.
pub open spec fn pair_views(v: Seq<QueryPair>) -> Seq<(Seq<char>, Seq<char>)> {
    v.map_values(|p: QueryPair| (p.name@, p.value@))
}

/// A pair written back as a part of a query string.
pub open spec fn render_pair(p: (Seq<char>, Seq<char>)) -> Seq<char> {
    p.0 + seq!['='] + p.1
}

/// The position of the first `=` in a list of characters, if any.
fn find_equals(cs: &Vec<char>) -> (res: Option<usize>)
    ensures
        match find_char(cs@, '=') {
            Some(i) => res == Some(i as usize),
            None => res is None,
        },
{
    let n = cs.len();
    let mut i: usize = 0;
    while i < n
        invariant
            n == cs@.len(),
            i <= n,
            forall|j: int| 0 <= j < i ==> cs@[j] != '=',
        decreases n - i,
    {
        if cs[i] == '=' {
            proof {
                lemma_find_char_at(cs@, '=', i as int);
            }
            return Some(i);
        }
        i = i + 1;
    }
    proof {
        lemma_find_char_none(cs@, '=');
    }
    None
}

proof fn lemma_find_char_at(s: Seq<char>, c: char, i: int)
    requires
        0 <= i < s.len(),
        s[i] == c,
        forall|j: int| 0 <= j < i ==> s[j] != c,
    ensures
        find_char(s, c) == Some(i),
    decreases i,
{
    if i > 0 {
        lemma_find_char_at(s.drop_first(), c, i - 1);
    }
}

proof fn lemma_find_char_none(s: Seq<char>, c: char)
    requires
        forall|j: int| 0 <= j < s.len() ==> s[j] != c,
    ensures
        find_char(s, c) is None,
    decreases s.len(),
{
    if s.len() > 0 {
        lemma_find_char_none(s.drop_first(), c);
    }
}

proof fn lemma_find_char_facts(s: Seq<char>, c: char)
    ensures
        find_char(s, c) matches Some(i) ==> 0 <= i < s.len() && s[i] == c && forall|j: int|
            0 <= j < i ==> s[j] != c,
        find_char(s, c) is None ==> forall|j: int| 0 <= j < s.len() ==> s[j] != c,
    decreases s.len(),
{
    if s.len() > 0 {
        lemma_find_char_facts(s.drop_first(), c);
        if s[0] != c {
            assert forall|j: int| 1 <= j < s.len() implies s[j] == s.drop_first()[j - 1] by {}
        }
    }
}

/// Splits the query string of a URL into its name/value pairs: the parts
/// between `&` are split at their first `=`; a part without `=` is a name
/// with an empty value, and empty parts are left out.
pub fn extract_query(query: &str) -> (res: Vec<QueryPair>)
    ensures
        pair_views(res@) == spec_extract_query(query@),
{
    let parts = split_str(query, '&');
    let ghost parts_view = views(parts@);
    let n = parts.len();
    let mut query_strings: Vec<QueryPair> = Vec::new();
    let mut i: usize = 0;
    while i < n
        invariant
            n == parts@.len(),
            parts_view == views(parts@),
            parts_view == split_on(query@, '&'),
            i <= n,
            pair_views(query_strings@) == spec_query_pairs(parts_view.subrange(0, i as int)),
        decreases n - i,
    {
        let part = &parts[i];
        let cs = chars_of(part.as_str());
        let ghost before = query_strings@;
        assert(parts_view.subrange(0, i + 1).drop_last() =~= parts_view.subrange(0, i as int));
        assert(parts_view.subrange(0, i + 1).last() == part@);
        proof {
            lemma_find_char_facts(cs@, '=');
        }
        match find_equals(&cs) {
            Some(k) => {
                let name = string_from_chars(&cs, 0, k);
                let value = string_from_chars(&cs, k + 1, cs.len());
                query_strings.push(QueryPair { name, value });
                assert(pair_views(query_strings@) =~= pair_views(before).push((name@, value@)));
            },
            None => {
                if cs.len() > 0 {
                    let name = string_from_chars(&cs, 0, cs.len());
                    let value = String::new();
                    assert(name@ =~= part@);
                    query_strings.push(QueryPair { name, value });
                    assert(pair_views(query_strings@) =~= pair_views(before).push((name@, value@)));
                }
            },
        }
        i = i + 1;
    }
    assert(parts_view.subrange(0, n as int) =~= parts_view);
    query_strings
}

proof fn lemma_pairs_render(parts: Seq<Seq<char>>)
    requires
        forall|i: int| 0 <= i < parts.len() ==> (#[trigger] find_char(parts[i], '=')) is Some,
    ensures
        spec_query_pairs(parts).len() == parts.len(),
        forall|i: int| 0 <= i < parts.len() ==> render_pair(#[trigger] spec_query_pairs(parts)[i]) == parts[i],
    decreases parts.len(),
{
    if parts.len() > 0 {
        let init = parts.drop_last();
        assert forall|i: int| 0 <= i < init.len() implies (#[trigger] find_char(init[i], '=')) is Some by {
            assert(init[i] == parts[i]);
        }
        lemma_pairs_render(init);
        let last = parts.last();
        assert(find_char(parts[parts.len() - 1], '=') is Some);
        lemma_find_char_facts(last, '=');
        let k = find_char(last, '=')->Some_0;
        assert(render_pair(spec_query_pair(last)->Some_0) =~= last);
        assert forall|i: int| 0 <= i < parts.len() implies render_pair(#[trigger] spec_query_pairs(parts)[i]) == parts[i] by {
            if i < init.len() {
                assert(spec_query_pairs(parts)[i] == spec_query_pairs(init)[i]);
            }
        }
    }
}

/// Writing the pairs of a query string back, each as `name=value` and joined
/// with `&`, gives the query string again where each of its parts holds a
/// `=`.
pub proof fn lemma_extract_query_roundtrip(query: Seq<char>)
    requires
        forall|i: int| 0 <= i < split_on(query, '&').len() ==> (#[trigger] find_char(split_on(query, '&')[i], '=')) is Some,
    ensures
        join_with(spec_extract_query(query).map_values(|p: (Seq<char>, Seq<char>)| render_pair(p)), '&') == query,
{
    let parts = split_on(query, '&');
    lemma_pairs_render(parts);
    assert(spec_extract_query(query).map_values(|p: (Seq<char>, Seq<char>)| render_pair(p)) =~= parts);
    lemma_join_split(query, '&');
}

/// No name of a query pair holds a `=`.
pub proof fn lemma_extract_query_names(query: Seq<char>)
    ensures
        forall|i: int, j: int| 0 <= i < spec_extract_query(query).len() && 0 <= j < spec_extract_query(query)[i].0.len()
            ==> spec_extract_query(query)[i].0[j] != '=',
{
    lemma_pairs_names(split_on(query, '&'));
}

proof fn lemma_pairs_names(parts: Seq<Seq<char>>)
    ensures
        forall|i: int, j: int| 0 <= i < spec_query_pairs(parts).len() && 0 <= j < spec_query_pairs(parts)[i].0.len()
            ==> spec_query_pairs(parts)[i].0[j] != '=',
    decreases parts.len(),
{
    if parts.len() > 0 {
        let init = parts.drop_last();
        lemma_pairs_names(init);
        let last = parts.last();
        lemma_find_char_facts(last, '=');
        let pairs = spec_query_pairs(parts);
        assert forall|i: int, j: int| 0 <= i < pairs.len() && 0 <= j < pairs[i].0.len() implies pairs[i].0[j] != '=' by {
            if i < spec_query_pairs(init).len() {
                assert(pairs[i] == spec_query_pairs(init)[i]);
            } else {
                let p = spec_query_pair(last)->Some_0;
                assert(pairs[i] == p);
                if let Some(k) = find_char(last, '=') {
                    assert(p.0[j] == last[j]);
                } else {
                    assert(p.0[j] == last[j]);
                }
            }
        }
    }
}

/// The text that `String::from_utf8_lossy` gives for some bytes: invalid
/// sequences become the replacement character.
pub uninterp spec fn utf8_lossy_text(bytes: Seq<u8>) -> Seq<char>;

/// The text of a URI without its query, and the query, as `http::Uri` splits
/// them; `None` where the text is no URI or its parts cannot be put together
/// again.
pub uninterp spec fn uri_split_query(uri: Seq<char>) -> Option<(Seq<char>, Option<Seq<char>>)>;

/// The text that `http::StatusCode` displays for a status code, such as
/// `500 Internal Server Error`.
pub uninterp spec fn status_code_text(code: u16) -> Seq<char>;

/// Reads bytes as UTF-8 text, replacing invalid sequences.
///
/// Trusted: calls `String::from_utf8_lossy` and takes the text it gives.
/// The result is named by `utf8_lossy_text`; as the standard library
/// documents, bytes that are valid UTF-8 give the text they encode, and
/// every invalid sequence becomes a replacement character, so the text is
/// empty exactly where the bytes are.
#[verifier::external_body]
fn utf8_lossy(bytes: &[u8]) -> (res: String)
    ensures
        res@ == utf8_lossy_text(bytes@),
        vstd::utf8::valid_utf8(bytes@) ==> res@ == vstd::utf8::decode_utf8(bytes@),
        bytes@.len() == 0 <==> res@.len() == 0,
{
    String::from_utf8_lossy(bytes).into_owned()
}

/// Splits the query off a URI.
///
/// Trusted: calls `str::parse::<http::Uri>`, `Uri::into_parts`,
/// `PathAndQuery::query` and `PathAndQuery::path`, then
/// `PathAndQuery::try_from` on the path and `Uri::from_parts` with it, and
/// displays the URI that this gives. The result is named by
/// `uri_split_query`. The displayed URI holds no `?`: `Uri`'s `Display`
/// writes the scheme, the authority (which parsing ends at the first `?`),
/// the path, and a `?` only before a query, which the new URI has not; and
/// the path, taken before the query, holds no `?` either.
#[verifier::external_body]
fn split_uri_query(uri: &str) -> (res: Option<(String, Option<String>)>)
    ensures
        res matches Some(p) ==> uri_split_query(uri@) == Some((p.0@, crate::base_url::option_view(p.1))),
        res is None ==> uri_split_query(uri@) is None,
        res matches Some(p) ==> !p.0@.contains('?'),
{
    let mut parts = match uri.parse::<http::Uri>() {
        Ok(u) => u.into_parts(),
        Err(_) => return None,
    };
    let (path, query) = match &parts.path_and_query {
        Some(paq) => (Some(paq.path().to_owned()), paq.query().map(str::to_owned)),
        None => (None, None),
    };
    parts.path_and_query = match path.map(http::uri::PathAndQuery::try_from).transpose() {
        Ok(p) => p,
        Err(_) => return None,
    };
    match http::Uri::from_parts(parts) { Ok(u) => Some((u.to_string(), query)), Err(_) => None }
}

/// Displays a status code.
///
/// Trusted: calls `http::StatusCode::from_u16`, which accepts the codes from
/// 100 to 999, and displays the status code. The result is named by
/// `status_code_text`.
#[verifier::external_body]
fn status_text(code: u16) -> (res: String)
    requires
        100 <= code <= 999,
    ensures
        res@ == status_code_text(code),
{
    match http::StatusCode::from_u16(code) {
        Ok(s) => s.to_string(),
        Err(_) => String::new(),
    }
}

/// One header as a HAR log records it.
#[derive(Debug, Clone, PartialEq, Eq)]
pub struct HarHeader {
    pub name: String,
    pub value: String,
}

/// The body of a request as a HAR log records it.
#[derive(Debug, Clone, PartialEq, Eq)]
pub struct HarPostData {
    pub mime_type: String,
    pub text: String,
}

/// What a HAR log records of a request.
#[derive(Debug)]
pub struct HarRequest {
    pub method: String,
    pub url: String,
    pub http_version: String,
    pub headers: Vec<HarHeader>,
    pub query_string: Vec<QueryPair>,
    pub post_data: Option<HarPostData>,
    pub headers_size: i64,
    pub body_size: i64,
}

/// What a HAR log records of a response.
#[derive(Debug)]
pub struct HarResponse {
    pub status: i64,
    pub status_text: String,
    pub http_version: String,
    pub headers: Vec<HarHeader>,
    pub content_size: i64,
    pub content_text: Option<String>,
    pub headers_size: i64,
    pub body_size: i64,
}

/// Whether a byte is one that `HeaderValue::to_str` accepts: visible ASCII
/// or the tab.
pub open spec fn is_visible_header_byte(b: u8) -> bool {
    (32 <= b && b < 127) || b == 9
}

/// The text of a header value: its bytes as characters where they are all
/// visible ASCII, and the empty text otherwise.
pub open spec fn spec_header_value_text(value: Seq<u8>) -> Seq<char> {
    if forall|i: int| 0 <= i < value.len() ==> is_visible_header_byte(#[trigger] value[i]) {
        value.map_values(|b: u8| b as char)
    } else {
        Seq::empty()
    }
}

/// The texts of recorded headers.
pub open spec fn har_header_views(v: Seq<HarHeader>) -> Seq<(Seq<char>, Seq<char>)> {
    v.map_values(|h: HarHeader| (h.name@, h.value@))
}

/// The headers as they are recorded: the name, and the text of the value.
pub open spec fn spec_har_headers(headers: Seq<(String, Vec<u8>)>) -> Seq<(Seq<char>, Seq<char>)> {
    headers.map_values(|h: (String, Vec<u8>)| (h.0@, spec_header_value_text(h.1@)))
}

/// A header value whose bytes are all tabs or in 32..=126 (the space
/// included) is recorded as exactly those bytes read as characters; a value
/// with any other byte is recorded as the empty text.
pub proof fn lemma_header_value_text(value: Seq<u8>)
    ensures
        (forall|i: int| 0 <= i < value.len() ==> (#[trigger] value[i] == 9 || (32 <= value[i] && value[i] <= 126)))
            ==> (spec_header_value_text(value).len() == value.len() && forall|i: int|
            0 <= i < value.len() ==> #[trigger] spec_header_value_text(value)[i] as u32 == value[i] as u32),
        (exists|i: int| 0 <= i < value.len() && !(#[trigger] value[i] == 9 || (32 <= value[i] && value[i] <= 126)))
            ==> spec_header_value_text(value).len() == 0,
{
}

/// Every recorded header keeps its name and has the text of its value, in
/// the order of the headers.
pub proof fn lemma_har_headers(headers: Seq<(String, Vec<u8>)>)
    ensures
        spec_har_headers(headers).len() == headers.len(),
        forall|k: int|
            0 <= k < headers.len() ==> #[trigger] spec_har_headers(headers)[k] == (headers[k].0@, spec_header_value_text(
                headers[k].1@,
            )),
{
}

/// The text of a header value, as `HeaderValue::to_str` with an empty text
/// for a value that is no visible ASCII.
fn header_value_text(value: &Vec<u8>) -> (res: String)
    ensures
        res@ == spec_header_value_text(value@),
{
    let n = value.len();
    let mut res = String::new();
    let mut i: usize = 0;
    while i < n
        invariant
            n == value@.len(),
            i <= n,
            forall|j: int| 0 <= j < i ==> is_visible_header_byte(#[trigger] value@[j]),
            res@ == value@.subrange(0, i as int).map_values(|b: u8| b as char),
        decreases n - i,
    {
        let b = value[i];
        if !((32 <= b && b < 127) || b == 9) {
            return String::new();
        }
        crate::text::push_char(&mut res, b as char);
        assert(value@.subrange(0, i + 1).map_values(|b: u8| b as char) =~= value@.subrange(0, i as int).map_values(
            |b: u8| b as char,
        ).push(b as char));
        i = i + 1;
    }
    assert(value@.subrange(0, n as int) =~= value@);
    res
}

/// The headers as they are recorded.
fn har_headers(headers: &Vec<(String, Vec<u8>)>) -> (res: Vec<HarHeader>)
    ensures
        har_header_views(res@) == spec_har_headers(headers@),
{
    let n = headers.len();
    let mut res: Vec<HarHeader> = Vec::new();
    let mut i: usize = 0;
    while i < n
        invariant
            n == headers@.len(),
            i <= n,
            har_header_views(res@) == spec_har_headers(headers@.subrange(0, i as int)),
        decreases n - i,
    {
        let name = headers[i].0.clone();
        let value = header_value_text(&headers[i].1);
        let ghost before = res@;
        res.push(HarHeader { name, value });
        assert(har_header_views(res@) =~= har_header_views(before).push((name@, value@)));
        assert(spec_har_headers(headers@.subrange(0, i + 1)) =~= spec_har_headers(headers@.subrange(0, i as int)).push(
            (headers@[i as int].0@, spec_header_value_text(headers@[i as int].1@)),
        ));
        i = i + 1;
    }
    assert(headers@.subrange(0, n as int) =~= headers@);
    res
}

/// The query pairs of an optional query.
pub open spec fn spec_optional_query_pairs(query: Option<Seq<char>>) -> Seq<(Seq<char>, Seq<char>)> {
    match query {
        Some(q) => spec_extract_query(q),
        None => Seq::empty(),
    }
}

/// What a HAR log records of a request: the URI without its query, the
/// query split into pairs, the headers with their values as text, the body
/// as text where it is not empty (recorded as JSON), the number of headers
/// as the size of the headers and the length of the body text as the size
/// of the body. `None` where the URI cannot be split.
pub fn har_request(method: String, uri: &str, http_version: String, headers: &Vec<(String, Vec<u8>)>, body: &[u8]) -> (res:
    Option<HarRequest>)
    ensures
        res is None <==> uri_split_query(uri@) is None,
        res matches Some(r) ==> {
            let split = uri_split_query(uri@)->Some_0;
            let text = utf8_lossy_text(body@);
            &&& r.method@ == method@
            &&& r.url@ == split.0
            &&& r.http_version@ == http_version@
            &&& pair_views(r.query_string@) == spec_optional_query_pairs(split.1)
            &&& har_header_views(r.headers@) == spec_har_headers(headers@)
            &&& r.headers_size == headers@.len() as i64
            &&& r.body_size == (vstd::utf8::encode_utf8(text).len() as usize) as i64
            &&& (text.len() == 0 <==> r.post_data is None)
            &&& (body@.len() == 0 <==> r.post_data is None)
            &&& r.post_data matches Some(p) ==> p.mime_type@ == "application/json"@ && p.text@ == text
            &&& !r.url@.contains('?')
            &&& vstd::utf8::valid_utf8(body@) ==> text == vstd::utf8::decode_utf8(body@)
        },
{
    let (url, query) = match split_uri_query(uri) {
        Some(p) => p,
        None => return None,
    };
    let query_string = match &query {
        Some(q) => extract_query(q.as_str()),
        None => Vec::new(),
    };
    let text = utf8_lossy(body);
    let body_size = text.as_str().len() as i64;
    let post_data = if text.as_str().is_empty() {
        None
    } else {
        Some(HarPostData { mime_type: "application/json".to_owned(), text })
    };
    let headers_out = har_headers(headers);
    let headers_size = headers.len() as i64;
    Some(HarRequest {
        method,
        url,
        http_version,
        headers: headers_out,
        query_string,
        post_data,
        headers_size,
        body_size,
    })
}

/// What a HAR log records of a response: the status code and its text, the
/// headers with their values as text, the body as text where it is not
/// empty, the number of headers as the size of the headers and the number
/// of body bytes as the size of the content and of the body.
pub fn har_response(status: u16, http_version: String, headers: &Vec<(String, Vec<u8>)>, body: &[u8]) -> (res: HarResponse)
    requires
        100 <= status <= 999,
    ensures
        res.status == status as i64,
        res.status_text@ == status_code_text(status),
        res.http_version@ == http_version@,
        har_header_views(res.headers@) == spec_har_headers(headers@),
        res.headers_size == headers@.len() as i64,
        res.content_size == body@.len() as i64,
        res.body_size == body@.len() as i64,
        body@.len() == 0 ==> res.content_text is None,
        body@.len() > 0 ==> (res.content_text matches Some(t) && t@ == utf8_lossy_text(body@)),
        body@.len() > 0 && vstd::utf8::valid_utf8(body@) ==> (res.content_text matches Some(t) && t@
            == vstd::utf8::decode_utf8(body@)),
{
    let content_text = if body.len() == 0 {
        None
    } else {
        Some(utf8_lossy(body))
    };
    HarResponse {
        status: status as i64,
        status_text: status_text(status),
        http_version,
        headers: har_headers(headers),
        content_size: body.len() as i64,
        content_text,
        headers_size: headers.len() as i64,
        body_size: body.len() as i64,
    }
}

} // verus!
