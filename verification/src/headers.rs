use vstd::prelude::*;

verus! {

/// Declares `http::HeaderMap`, the multimap of request and response headers.
#[verifier::external_type_specification]
#[verifier::external_body]
#[verifier::reject_recursive_types(T)]
pub struct ExHeaderMap<T>(http::HeaderMap<T>);

/// Declares `http::HeaderValue`, the value of one header.
#[verifier::external_type_specification]
#[verifier::external_body]
pub struct ExHeaderValue(http::HeaderValue);

/// What a header map holds: for each header name (in the lower case that
/// `HeaderName::as_str` gives), the bytes of its values in order.
pub uninterp spec fn header_entries(map: http::HeaderMap) -> Map<Seq<char>, Seq<Seq<u8>>>;

/// The most header names that the maps of this crate are given.
///
/// A `HeaderMap` holds at most `MAX_SIZE` (`1 << 15`) index slots. When a
/// long probe sequence puts it in its "yellow" state, inserting a name
/// doubles the slots where five times the number of names reaches the
/// number of slots, and fails past `MAX_SIZE`; it also doubles when the
/// names fill three quarters of the slots. A map below this limit holds at
/// most 6553 names before an insertion, and five times 6553 stays below
/// `1 << 15`, so neither can ask for more than `1 << 15` slots, whatever
/// the map went through before: inserting, extending and copying such a
/// map never reaches the size error.
pub open spec fn header_name_limit() -> nat {
    6554
}

/// Whether a header map is small enough to take more names without the
/// http crate running out of room.
pub open spec fn has_room(entries: Map<Seq<char>, Seq<Seq<u8>>>) -> bool {
    entries.dom().finite() && entries.dom().len() < header_name_limit()
}

/// Whether a text is a header name that `HeaderName::from_bytes` keeps as it
/// is: lower-case ASCII letters, digits and `-`, at least one of them.
pub open spec fn is_plain_header_name(name: Seq<char>) -> bool {
    &&& 0 < name.len() < 65536
    &&& forall|i: int|
        0 <= i < name.len() ==> {
            let c = #[trigger] name[i];
            ('a' <= c && c <= 'z') || ('0' <= c && c <= '9') || c == '-'
        }
}

/// Whether a text is a header value that `HeaderValue::from_str` accepts
/// and whose bytes are its characters: visible ASCII and the tab.
pub open spec fn is_plain_header_value(value: Seq<char>) -> bool {
    forall|i: int|
        0 <= i < value.len() ==> {
            let c = #[trigger] value[i];
            (' ' <= c && c <= '~') || c == '\t'
        }
}

/// The bytes of an ASCII text.
pub open spec fn ascii_bytes(s: Seq<char>) -> Seq<u8> {
    s.map_values(|c: char| c as u8)
}

/// The entries of a map without any header.
pub open spec fn no_headers() -> Map<Seq<char>, Seq<Seq<u8>>> {
    Map::empty()
}

/// An empty header map.
///
/// Trusted: calls `http::HeaderMap::new`, which creates a map without any
/// header.
#[verifier::external_body]
pub(crate) fn header_map_new() -> (res: http::HeaderMap)
    ensures
        header_entries(res) == no_headers(),
{
    http::HeaderMap::new()
}

/// Sets a header to a value where the map holds no value for it yet.
///
/// Trusted: calls `HeaderName::from_bytes` and `HeaderValue::from_str`,
/// which accept such names and values, and then `HeaderMap::entry` with
/// `Entry::or_insert`, which leaves a present header as it is and otherwise
/// gives it the one value.
#[verifier::external_body]
fn header_map_insert_if_absent(map: &mut http::HeaderMap, name: &str, value: &str)
    requires
        is_plain_header_name(name@),
        is_plain_header_value(value@),
        has_room(header_entries(*old(map))),
    ensures
        header_entries(*final(map)) == (if header_entries(*old(map)).contains_key(name@) {
            header_entries(*old(map))
        } else {
            header_entries(*old(map)).insert(name@, seq![ascii_bytes(value@)])
        }),
{
    if let (Ok(n), Ok(v)) = (http::HeaderName::from_bytes(name.as_bytes()), http::HeaderValue::from_str(value)) {
        let _ = map.entry(n).or_insert(v);
    }
}

/// Extends a header map with the headers of another map.
///
/// Trusted: calls `HeaderMap::clone` on `other` and then
/// `HeaderMap::extend` with it, which for every name of `other` replaces the
/// values that `map` holds for it by the values of `other`, and keeps the
/// other names of `map`.
#[verifier::external_body]
fn header_map_extend(map: &mut http::HeaderMap, other: &http::HeaderMap)
    requires
        header_entries(*old(map)).dom().finite(),
        header_entries(*other).dom().finite(),
        header_entries(*old(map)).dom().len() + header_entries(*other).dom().len() < header_name_limit(),
    ensures
        header_entries(*final(map)) == header_entries(*old(map)).union_prefer_right(header_entries(*other)),
{
    map.extend(other.clone());
}

/// Applies the headers of a header field: each name of `field` gets the
/// values that `field` holds for it, and the other headers stay.
pub fn apply_header_field(headers: &mut http::HeaderMap, field: &http::HeaderMap)
    requires
        header_entries(*old(headers)).dom().finite(),
        header_entries(*field).dom().finite(),
        header_entries(*old(headers)).dom().len() + header_entries(*field).dom().len() < header_name_limit(),
    ensures
        header_entries(*final(headers)) == header_entries(*old(headers)).union_prefer_right(header_entries(*field)),
{
    header_map_extend(headers, field);
}

/// The headers after a JSON body is applied to them: `content-type` is set
/// to `application/json` unless the map already holds a content type.
pub open spec fn spec_with_json_content_type(entries: Map<Seq<char>, Seq<Seq<u8>>>) -> Map<Seq<char>, Seq<Seq<u8>>> {
    if entries.contains_key("content-type"@) {
        entries
    } else {
        entries.insert("content-type"@, seq![ascii_bytes("application/json"@)])
    }
}

/// Applies the headers that a JSON body needs: sets `content-type` to
/// `application/json` unless a content type is already present.
pub fn apply_json_content_type(headers: &mut http::HeaderMap)
    requires
        has_room(header_entries(*old(headers))),
    ensures
        header_entries(*final(headers)) == spec_with_json_content_type(header_entries(*old(headers))),
{
    proof {
        reveal_strlit("content-type");
        reveal_strlit("application/json");
    }
    header_map_insert_if_absent(headers, "content-type", "application/json");
}

/// Applying the JSON headers twice is applying them once, a content type
/// that is present stays, and afterwards a content type is present.
pub proof fn lemma_json_content_type(entries: Map<Seq<char>, Seq<Seq<u8>>>)
    ensures
        spec_with_json_content_type(spec_with_json_content_type(entries)) == spec_with_json_content_type(entries),
        spec_with_json_content_type(entries).contains_key("content-type"@),
        entries.contains_key("content-type"@) ==> spec_with_json_content_type(entries)["content-type"@]
            == entries["content-type"@],
        forall|k: Seq<char>| k != "content-type"@ ==> (#[trigger] spec_with_json_content_type(entries).contains_key(k)
            <==> entries.contains_key(k)),
{
}

} // verus!
