use vstd::prelude::*;

use crate::text::views;

verus! {

/// Declares `url::ParseError`, which parsing a URL reports.
#[verifier::external_type_specification]
#[verifier::external_body]
pub struct ExUrlParseError(url::ParseError);

/// Declares `http::uri::InvalidUri`, which parsing a URI reports.
#[verifier::external_type_specification]
#[verifier::external_body]
pub struct ExInvalidUri(http::uri::InvalidUri);

/// The serialization that `url::Url::parse` gives to a text, if it accepts it.
pub uninterp spec fn url_parse(input: Seq<char>) -> Option<Seq<char>>;

/// The serialization of the URL `url` after its path segments were edited
/// with `pop_if_empty` and then `extend(segments)`; `None` where the URL
/// cannot be a base.
pub uninterp spec fn url_with_segments(url: Seq<char>, segments: Seq<Seq<char>>) -> Option<Seq<char>>;

/// The serialization of the URL `url` after `set_query(query)`.
pub uninterp spec fn url_with_query(url: Seq<char>, query: Option<Seq<char>>) -> Seq<char>;

/// The text of the `http::Uri` that `str::parse` gives to a text, if it
/// accepts it.
pub uninterp spec fn uri_text(input: Seq<char>) -> Option<Seq<char>>;

/// Whether a text is the serialization of a URL: parsing it gives it back.
pub open spec fn is_url_serialization(s: Seq<char>) -> bool {
    url_parse(s) == Some(s)
}

/// The texts of an optional string.
pub open spec fn option_view(o: Option<String>) -> Option<Seq<char>> {
    match o {
        Some(s) => Some(s@),
        None => None,
    }
}

/// Parses a URL and gives its serialization.
///
/// Trusted: calls `url::Url::parse` and `url::Url::as_str`. The result is
/// named by `url_parse`. The second clause restates an invariant that the url
/// crate checks of every URL (`Url::check_invariants`): parsing the
/// serialization of a URL gives the same serialization.
#[verifier::external_body]
fn parse_url_serialization(input: &str) -> (res: Result<String, url::ParseError>)
    ensures
        res matches Ok(s) ==> url_parse(input@) == Some(s@) && is_url_serialization(s@),
        res is Err ==> url_parse(input@) is None,
{
    match url::Url::parse(input) {
        Ok(u) => Ok(u.as_str().to_owned()),
        Err(e) => Err(e),
    }
}

/// Appends path segments to a URL, after removing one empty last segment.
///
/// Trusted: calls `url::Url::path_segments_mut`, which fails exactly where
/// the URL cannot be a base, then `PathSegmentsMut::pop_if_empty` and
/// `PathSegmentsMut::extend`. The result is named by `url_with_segments`; it
/// is again the serialization of a URL (`Url::check_invariants`).
#[verifier::external_body]
fn push_path_segments(url: &str, segments: &Vec<String>) -> (res: Option<String>)
    requires
        is_url_serialization(url@),
    ensures
        res matches Some(s) ==> url_with_segments(url@, views(segments@)) == Some(s@)
            && is_url_serialization(s@),
        res is None ==> url_with_segments(url@, views(segments@)) is None,
{
    match url::Url::parse(url) {
        Ok(mut u) => {
            match u.path_segments_mut() {
                Ok(mut path) => {
                    path.pop_if_empty().extend(segments);
                },
                Err(()) => return None,
            }
            Some(u.as_str().to_owned())
        },
        Err(_) => None,
    }
}

/// Replaces the query of a URL.
///
/// Trusted: calls `url::Url::set_query`, which removes the query where it is
/// given `None`. The result is named by `url_with_query`; it is again the
/// serialization of a URL (`Url::check_invariants`).
#[verifier::external_body]
fn replace_query(url: &str, query: &Option<String>) -> (res: String)
    requires
        is_url_serialization(url@),
    ensures
        res@ == url_with_query(url@, option_view(*query)),
        is_url_serialization(res@),
{
    match url::Url::parse(url) {
        Ok(mut u) => {
            u.set_query(query.as_deref());
            u.as_str().to_owned()
        },
        Err(_) => url.to_owned(),
    }
}

/// Parses a URI and gives its text.
///
/// Trusted: calls `str::parse::<http::Uri>` and then `ToString::to_string`
/// on the URI. The result is named by `uri_text`.
#[verifier::external_body]
fn parse_uri_text(input: &str) -> (res: Result<String, http::uri::InvalidUri>)
    ensures
        res matches Ok(s) ==> uri_text(input@) == Some(s@),
        res is Err ==> uri_text(input@) is None,
{
    match input.parse::<http::Uri>() {
        Ok(u) => Ok(u.to_string()),
        Err(e) => Err(e),
    }
}

/// A URL that requests are sent relative to, held as its serialization.
#[derive(Debug)]
pub struct Url {
    serialization: String,
}

impl View for Url {
    type V = Seq<char>;

    closed spec fn view(&self) -> Seq<char> {
        self.serialization@
    }
}

impl Clone for Url {
    fn clone(&self) -> (res: Self)
        ensures
            res@ == self@,
    {
        proof {
            use_type_invariant(self);
        }
        Url { serialization: self.serialization.clone() }
    }
}

impl Url {
    #[verifier::type_invariant]
    spec fn serialization_is_stable(self) -> bool {
        is_url_serialization(self.serialization@)
    }

    /// Parses an absolute URL.
    pub fn parse(input: &str) -> (res: Result<Url, url::ParseError>)
        ensures
            res matches Ok(u) ==> url_parse(input@) == Some(u@),
            res is Err <==> url_parse(input@) is None,
    {
        match parse_url_serialization(input) {
            Ok(s) => Ok(Url { serialization: s }),
            Err(e) => Err(e),
        }
    }

    /// The serialization of the URL.
    pub fn as_str(&self) -> (res: &str)
        ensures
            res@ == self@,
    {
        self.serialization.as_str()
    }

    /// The URL with the given segments appended to its path, after one empty
    /// last segment is removed; `None` where the URL cannot be a base.
    pub fn with_path_segments(&self, segments: &Vec<String>) -> (res: Option<Url>)
        ensures
            res matches Some(u) ==> url_with_segments(self@, views(segments@)) == Some(u@),
            res is None <==> url_with_segments(self@, views(segments@)) is None,
    {
        proof {
            use_type_invariant(self);
        }
        match push_path_segments(self.serialization.as_str(), segments) {
            Some(s) => Some(Url { serialization: s }),
            None => None,
        }
    }

    /// The URL with its query replaced; `None` removes the query.
    pub fn with_query(&self, query: &Option<String>) -> (res: Url)
        ensures
            res@ == url_with_query(self@, option_view(*query)),
    {
        proof {
            use_type_invariant(self);
        }
        Url { serialization: replace_query(self.serialization.as_str(), query) }
    }

    /// The text of the URI that the URL is sent to.
    pub fn to_uri(&self) -> (res: Result<String, http::uri::InvalidUri>)
        ensures
            res matches Ok(s) ==> uri_text(self@) == Some(s@),
            res is Err <==> uri_text(self@) is None,
    {
        parse_uri_text(self.serialization.as_str())
    }
}

} // verus!
