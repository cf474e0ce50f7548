use vstd::prelude::*;

use crate::request_derive::MacroError;
use crate::text::str_eq;

verus! {

/// The name that `str::to_uppercase` gives to a string.
pub uninterp spec fn uppercase(s: Seq<char>) -> Seq<char>;

/// The ASCII upper-case form of a character: `a`..=`z` become `A`..=`Z`,
/// every other character stays as it is.
pub open spec fn ascii_upper_char(c: char) -> char {
    if 'a' <= c && c <= 'z' {
        ((c as u32) - 32) as char
    } else {
        c
    }
}

/// Whether every character of `s` is an ASCII character.
pub open spec fn all_ascii(s: Seq<char>) -> bool {
    forall|i: int| 0 <= i < s.len() ==> (#[trigger] s[i]) <= '\x7f'
}

/// Upper-cases a string.
///
/// Trusted: calls `str::to_uppercase`. The result is named by `uppercase`;
/// for a string of ASCII characters the standard library documents the
/// result as the ASCII letters upper-cased and every other character kept,
/// which the second clause states.
#[verifier::external_body]
fn to_uppercase(s: &str) -> (res: String)
    ensures
        res@ == uppercase(s@),
        all_ascii(s@) ==> res@ == s@.map_values(|c: char| ascii_upper_char(c)),
{
    s.to_uppercase()
}

/// The HTTP methods that a request can be sent with.
#[derive(Debug, Clone, Copy, PartialEq, Eq, Structural)]
pub enum HttpMethod {
    Get,
    Post,
    Put,
    Delete,
    Head,
    Options,
    Connect,
    Patch,
    Trace,
}

/// The method whose upper-case name is `name`, if any.
pub open spec fn spec_method_from_name(name: Seq<char>) -> Option<HttpMethod> {
    if name == "GET"@ {
        Some(HttpMethod::Get)
    } else if name == "POST"@ {
        Some(HttpMethod::Post)
    } else if name == "PUT"@ {
        Some(HttpMethod::Put)
    } else if name == "DELETE"@ {
        Some(HttpMethod::Delete)
    } else if name == "HEAD"@ {
        Some(HttpMethod::Head)
    } else if name == "OPTIONS"@ {
        Some(HttpMethod::Options)
    } else if name == "CONNECT"@ {
        Some(HttpMethod::Connect)
    } else if name == "PATCH"@ {
        Some(HttpMethod::Patch)
    } else if name == "TRACE"@ {
        Some(HttpMethod::Trace)
    } else {
        None
    }
}

/// The method that the value of a `method` attribute names: the value is
/// upper-cased first (for ASCII text, letter by letter).
pub open spec fn spec_method_from_attribute(value: Seq<char>) -> Option<HttpMethod> {
    if all_ascii(value) {
        spec_method_from_name(value.map_values(|c: char| ascii_upper_char(c)))
    } else {
        spec_method_from_name(uppercase(value))
    }
}

/// The ASCII lower-case form of a character.
pub open spec fn ascii_lower_char(c: char) -> char {
    if 'A' <= c && c <= 'Z' {
        ((c as u32) + 32) as char
    } else {
        c
    }
}

impl HttpMethod {
    /// The upper-case name of the method.
    pub open spec fn spec_name(self) -> Seq<char> {
        match self {
            HttpMethod::Get => "GET"@,
            HttpMethod::Post => "POST"@,
            HttpMethod::Put => "PUT"@,
            HttpMethod::Delete => "DELETE"@,
            HttpMethod::Head => "HEAD"@,
            HttpMethod::Options => "OPTIONS"@,
            HttpMethod::Connect => "CONNECT"@,
            HttpMethod::Patch => "PATCH"@,
            HttpMethod::Trace => "TRACE"@,
        }
    }

    /// The upper-case name of the method, as the request line carries it.
    pub fn as_str(&self) -> (res: &'static str)
        ensures
            res@ == self.spec_name(),
    {
        match self {
            HttpMethod::Get => "GET",
            HttpMethod::Post => "POST",
            HttpMethod::Put => "PUT",
            HttpMethod::Delete => "DELETE",
            HttpMethod::Head => "HEAD",
            HttpMethod::Options => "OPTIONS",
            HttpMethod::Connect => "CONNECT",
            HttpMethod::Patch => "PATCH",
            HttpMethod::Trace => "TRACE",
        }
    }

    /// The method whose upper-case name is exactly `name`.
    pub fn from_upper_name(name: &str) -> (res: Option<HttpMethod>)
        ensures
            res == spec_method_from_name(name@),
    {
        if str_eq(name, "GET") {
            Some(HttpMethod::Get)
        } else if str_eq(name, "POST") {
            Some(HttpMethod::Post)
        } else if str_eq(name, "PUT") {
            Some(HttpMethod::Put)
        } else if str_eq(name, "DELETE") {
            Some(HttpMethod::Delete)
        } else if str_eq(name, "HEAD") {
            Some(HttpMethod::Head)
        } else if str_eq(name, "OPTIONS") {
            Some(HttpMethod::Options)
        } else if str_eq(name, "CONNECT") {
            Some(HttpMethod::Connect)
        } else if str_eq(name, "PATCH") {
            Some(HttpMethod::Patch)
        } else if str_eq(name, "TRACE") {
            Some(HttpMethod::Trace)
        } else {
            None
        }
    }

    /// Reads a method from the value of the `method` attribute: the value is
    /// upper-cased and must then name one of the methods.
    pub fn from_string(value: &str) -> (res: Result<HttpMethod, MacroError>)
        ensures
            match spec_method_from_attribute(value@) {
                Some(m) => res == Ok::<HttpMethod, MacroError>(m),
                None => res matches Err(MacroError::UnknownValue { value: v }) && v@ == value@,
            },
    {
        let upper = to_uppercase(value);
        match HttpMethod::from_upper_name(upper.as_str()) {
            Some(m) => Ok(m),
            None => Err(MacroError::UnknownValue { value: value.to_owned() }),
        }
    }
}

/// Every method is read back from its own name, and from its name written
/// in lower case: the attribute value is case-insensitive.
pub proof fn lemma_method_name_roundtrip(m: HttpMethod)
    ensures
        spec_method_from_name(m.spec_name()) == Some(m),
        spec_method_from_attribute(m.spec_name()) == Some(m),
        spec_method_from_attribute(m.spec_name().map_values(|c: char| ascii_lower_char(c))) == Some(m),
{
    reveal_strlit("GET");
    reveal_strlit("POST");
    reveal_strlit("PUT");
    reveal_strlit("DELETE");
    reveal_strlit("HEAD");
    reveal_strlit("OPTIONS");
    reveal_strlit("CONNECT");
    reveal_strlit("PATCH");
    reveal_strlit("TRACE");
    assert("GET"@[0] == 'G' && "GET"@.len() == 3);
    assert("POST"@[0] == 'P' && "POST"@.len() == 4);
    assert("PUT"@[0] == 'P' && "PUT"@.len() == 3);
    assert("DELETE"@[0] == 'D' && "DELETE"@.len() == 6);
    assert("HEAD"@[0] == 'H' && "HEAD"@.len() == 4);
    assert("OPTIONS"@[0] == 'O' && "OPTIONS"@.len() == 7);
    assert("CONNECT"@[0] == 'C' && "CONNECT"@.len() == 7);
    assert("PATCH"@[0] == 'P' && "PATCH"@.len() == 5);
    assert("TRACE"@[0] == 'T' && "TRACE"@.len() == 5);
    let name = m.spec_name();
    let lower = name.map_values(|c: char| ascii_lower_char(c));
    assert(name.map_values(|c: char| ascii_upper_char(c)) =~= name);
    assert(lower.map_values(|c: char| ascii_upper_char(c)) =~= name);
    assert(all_ascii(name));
    assert(all_ascii(lower));
}

/// Each method is named by its standard HTTP token, and each token names
/// that method and no other: `GET` is `Get`, `POST` is `Post`, `PUT` is
/// `Put`, `DELETE` is `Delete`, `HEAD` is `Head`, `OPTIONS` is `Options`,
/// `CONNECT` is `Connect`, `PATCH` is `Patch` and `TRACE` is `Trace`.
pub proof fn lemma_method_tokens(m: HttpMethod)
    ensures
        (m.spec_name() == "GET"@) == (m == HttpMethod::Get),
        (m.spec_name() == "POST"@) == (m == HttpMethod::Post),
        (m.spec_name() == "PUT"@) == (m == HttpMethod::Put),
        (m.spec_name() == "DELETE"@) == (m == HttpMethod::Delete),
        (m.spec_name() == "HEAD"@) == (m == HttpMethod::Head),
        (m.spec_name() == "OPTIONS"@) == (m == HttpMethod::Options),
        (m.spec_name() == "CONNECT"@) == (m == HttpMethod::Connect),
        (m.spec_name() == "PATCH"@) == (m == HttpMethod::Patch),
        (m.spec_name() == "TRACE"@) == (m == HttpMethod::Trace),
        spec_method_from_name("GET"@) == Some(HttpMethod::Get),
        spec_method_from_name("POST"@) == Some(HttpMethod::Post),
        spec_method_from_name("PUT"@) == Some(HttpMethod::Put),
        spec_method_from_name("DELETE"@) == Some(HttpMethod::Delete),
        spec_method_from_name("HEAD"@) == Some(HttpMethod::Head),
        spec_method_from_name("OPTIONS"@) == Some(HttpMethod::Options),
        spec_method_from_name("CONNECT"@) == Some(HttpMethod::Connect),
        spec_method_from_name("PATCH"@) == Some(HttpMethod::Patch),
        spec_method_from_name("TRACE"@) == Some(HttpMethod::Trace),
{
    reveal_strlit("GET");
    reveal_strlit("POST");
    reveal_strlit("PUT");
    reveal_strlit("DELETE");
    reveal_strlit("HEAD");
    reveal_strlit("OPTIONS");
    reveal_strlit("CONNECT");
    reveal_strlit("PATCH");
    reveal_strlit("TRACE");
    assert("GET"@[0] == 'G' && "GET"@.len() == 3);
    assert("POST"@[0] == 'P' && "POST"@.len() == 4);
    assert("PUT"@[0] == 'P' && "PUT"@.len() == 3);
    assert("DELETE"@[0] == 'D' && "DELETE"@.len() == 6);
    assert("HEAD"@[0] == 'H' && "HEAD"@.len() == 4);
    assert("OPTIONS"@[0] == 'O' && "OPTIONS"@.len() == 7);
    assert("CONNECT"@[0] == 'C' && "CONNECT"@.len() == 7);
    assert("PATCH"@[0] == 'P' && "PATCH"@.len() == 5);
    assert("TRACE"@[0] == 'T' && "TRACE"@.len() == 5);
}

/// The method that an attribute value names is the one whose HTTP token is
/// the value upper-cased: an ASCII value names a method exactly where its
/// letters, upper-cased, spell that method's token.
pub proof fn lemma_attribute_names_token(value: Seq<char>, m: HttpMethod)
    requires
        all_ascii(value),
    ensures
        spec_method_from_attribute(value) == Some(m) <==> value.map_values(|c: char| ascii_upper_char(c))
            == m.spec_name(),
{
    lemma_method_tokens(m);
    lemma_method_name_roundtrip(m);
    let upper = value.map_values(|c: char| ascii_upper_char(c));
    lemma_method_tokens(HttpMethod::Get);
    if spec_method_from_attribute(value) == Some(m) {
        assert(spec_method_from_name(upper) == Some(m));
    }
}

} // verus!
