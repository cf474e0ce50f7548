use vstd::prelude::*;

use crate::method::HttpMethod;
use crate::text::{chars_of, str_eq, views};

verus! {

/// Errors that the request derive reports about the item it is applied to.
#[derive(Debug)]
pub enum MacroError {
    /// An attribute value names nothing that the derive knows
    UnknownValue {
        /// The value as it was written
        value: String,
    },
    /// The item or its attributes cannot be used for a request
    Message {
        /// A message describing the problem
        message: String,
    },
}

/// The name of the attribute that describes a request.
pub open spec fn spec_attribute_name() -> Seq<char> {
    "http_request"@
}

/// The name of the attribute that describes a request.
pub fn attribute_name() -> (res: &'static str)
    ensures
        res@ == spec_attribute_name(),
{
    "http_request"
}

/// The type of a field, as far as the derive reads it: a type path with the
/// names of its segments, or some other type.
#[derive(Debug, Clone)]
pub enum FieldType {
    Path(Vec<String>),
    Other,
}

/// A field of the struct that the derive is applied to, with the roles
/// that its attributes give it.
#[derive(Debug, Clone)]
pub struct FieldReceiver {
    /// The name of the field; `None` in a tuple struct
    pub ident: Option<String>,
    /// The type of the field
    pub ty: FieldType,
    /// Whether the field is the body of the request
    pub body: bool,
    /// Whether the field holds the query of the request
    pub query: bool,
    /// Whether the field holds headers of the request
    pub header: bool,
}

/// How a field is named in code: by its position or by its name.
#[derive(Debug, Clone, PartialEq, Eq)]
pub enum FieldIdentifier {
    Index(usize),
    Named(String),
}

/// A field that has a role, with its position among the fields.
#[derive(Debug, Clone)]
pub struct FieldRef {
    pub identifier: FieldIdentifier,
    pub position: usize,
}

/// The fields that hold the body, the query and the headers of a request.
#[derive(Debug, Clone)]
pub struct Fields {
    pub body: Option<FieldRef>,
    pub query: Option<FieldRef>,
    pub header: Option<FieldRef>,
}

/// The positions of the body, query and header fields, or the role that
/// two fields claim.
pub type SpecFields = (Option<int>, Option<int>, Option<int>);

/// The fields of the first `fields.len()` positions, read in order: each
/// role may be given to one field only, and the first role given twice
/// (body before query before header within one field) is reported.
pub open spec fn spec_extract_fields(fields: Seq<FieldReceiver>) -> Result<SpecFields, Seq<char>>
    decreases fields.len(),
{
    if fields.len() == 0 {
        Ok((None, None, None))
    } else {
        let i = fields.len() - 1;
        let f = fields.last();
        match spec_extract_fields(fields.drop_last()) {
            Err(role) => Err(role),
            Ok((b, q, h)) => if f.body && b is Some {
                Err("body"@)
            } else if f.query && q is Some {
                Err("query"@)
            } else if f.header && h is Some {
                Err("header"@)
            } else {
                Ok(
                    (
                        if f.body { Some(i) } else { b },
                        if f.query { Some(i) } else { q },
                        if f.header { Some(i) } else { h },
                    ),
                )
            },
        }
    }
}

/// How the field at a position is named in code.
pub open spec fn spec_field_identifier(fields: Seq<FieldReceiver>, i: int) -> FieldIdentifier {
    match fields[i].ident {
        Some(name) => FieldIdentifier::Named(name),
        None => FieldIdentifier::Index(i as usize),
    }
}

/// Whether a field reference names the field at the given position.
pub open spec fn refers_to(r: Option<FieldRef>, fields: Seq<FieldReceiver>, pos: Option<int>) -> bool {
    match pos {
        None => r is None,
        Some(i) => r matches Some(fr) && fr.position == i && fr.identifier == spec_field_identifier(fields, i),
    }
}

/// The message for a role that two fields claim.
pub open spec fn spec_duplicate_message(role: Seq<char>) -> Seq<char> {
    "#["@ + spec_attribute_name() + "("@ + role + ")] found on multiple struct fields"@
}

proof fn lemma_extract_err_stays(fields: Seq<FieldReceiver>, k: int)
    requires
        0 <= k <= fields.len(),
        spec_extract_fields(fields.subrange(0, k)) is Err,
    ensures
        spec_extract_fields(fields) == spec_extract_fields(fields.subrange(0, k)),
    decreases fields.len() - k,
{
    if k == fields.len() {
        assert(fields.subrange(0, k) =~= fields);
    } else {
        let longer = fields.subrange(0, k + 1);
        assert(longer.drop_last() =~= fields.subrange(0, k));
        lemma_extract_err_stays(fields, k + 1);
    }
}

fn field_identifier(fields: &Vec<FieldReceiver>, i: usize) -> (res: FieldIdentifier)
    requires
        i < fields@.len(),
    ensures
        res == spec_field_identifier(fields@, i as int),
{
    match &fields[i].ident {
        Some(name) => FieldIdentifier::Named(name.clone()),
        None => FieldIdentifier::Index(i),
    }
}

fn duplicate_error(role: &str) -> (res: MacroError)
    ensures
        res matches MacroError::Message { message } && message@ == spec_duplicate_message(role@),
{
    let mut message = "#[".to_owned();
    message.append(attribute_name());
    message.append("(");
    message.append(role);
    message.append(")] found on multiple struct fields");
    MacroError::Message { message }
}

/// Finds the fields that hold the body, the query and the headers: each of
/// these attributes may stand on one field only.
pub fn extract_fields(fields: &Vec<FieldReceiver>) -> (res: Result<Fields, MacroError>)
    ensures
        match spec_extract_fields(fields@) {
            Ok((b, q, h)) => res matches Ok(fs) && refers_to(fs.body, fields@, b) && refers_to(fs.query, fields@, q)
                && refers_to(fs.header, fields@, h),
            Err(role) => res matches Err(MacroError::Message { message }) && message@ == spec_duplicate_message(role),
        },
{
    let mut body: Option<FieldRef> = None;
    let mut query: Option<FieldRef> = None;
    let mut header: Option<FieldRef> = None;
    let n = fields.len();
    let mut i: usize = 0;
    while i < n
        invariant
            n == fields@.len(),
            i <= n,
            spec_extract_fields(fields@.subrange(0, i as int)) matches Ok((b, q, h)) && refers_to(body, fields@, b)
                && refers_to(query, fields@, q) && refers_to(header, fields@, h),
        decreases n - i,
    {
        let ghost prefix = fields@.subrange(0, i + 1);
        assert(prefix.drop_last() =~= fields@.subrange(0, i as int));
        assert(prefix.last() == fields@[i as int]);
        let f = &fields[i];
        if f.body {
            if body.is_some() {
                proof {
                    reveal_strlit("body");
                    lemma_extract_err_stays(fields@, i + 1);
                }
                return Err(duplicate_error("body"));
            }
            body = Some(FieldRef { identifier: field_identifier(fields, i), position: i });
        }
        if f.query {
            if query.is_some() {
                proof {
                    reveal_strlit("query");
                    lemma_extract_err_stays(fields@, i + 1);
                }
                return Err(duplicate_error("query"));
            }
            query = Some(FieldRef { identifier: field_identifier(fields, i), position: i });
        }
        if f.header {
            if header.is_some() {
                proof {
                    reveal_strlit("header");
                    lemma_extract_err_stays(fields@, i + 1);
                }
                return Err(duplicate_error("header"));
            }
            header = Some(FieldRef { identifier: field_identifier(fields, i), position: i });
        }
        i = i + 1;
    }
    assert(fields@.subrange(0, n as int) =~= fields@);
    Ok(Fields { body, query, header })
}

/// Whether a field has a role: 0 is the body, 1 the query, 2 the headers.
pub open spec fn has_role(f: FieldReceiver, r: int) -> bool {
    if r == 0 {
        f.body
    } else if r == 1 {
        f.query
    } else {
        f.header
    }
}

/// The position that found fields give to a role.
pub open spec fn role_position(p: SpecFields, r: int) -> Option<int> {
    if r == 0 {
        p.0
    } else if r == 1 {
        p.1
    } else {
        p.2
    }
}

/// Whether no two fields share a role.
pub open spec fn roles_unique(fields: Seq<FieldReceiver>) -> bool {
    forall|r: int, i: int, j: int|
        0 <= r < 3 && 0 <= i < j < fields.len() ==> !(#[trigger] has_role(fields[i], r) && #[trigger] has_role(
            fields[j],
            r,
        ))
}

/// Whether found fields give a role to the one field that has it, if any.
pub open spec fn role_found(fields: Seq<FieldReceiver>, p: SpecFields, r: int) -> bool {
    match role_position(p, r) {
        Some(i) => 0 <= i < fields.len() && has_role(fields[i], r),
        None => forall|i: int| 0 <= i < fields.len() ==> !has_role(#[trigger] fields[i], r),
    }
}

/// Whether found fields give each role to the one field that has it.
pub open spec fn roles_found(fields: Seq<FieldReceiver>, p: SpecFields) -> bool {
    forall|r: int| 0 <= r < 3 ==> #[trigger] role_found(fields, p, r)
}

/// The fields are found exactly where no two fields share a role, and then
/// each role goes to the one field that has it, if any.
pub proof fn lemma_extract_fields_roles(fields: Seq<FieldReceiver>)
    ensures
        spec_extract_fields(fields) is Ok <==> roles_unique(fields),
        spec_extract_fields(fields) matches Ok(p) ==> roles_found(fields, p),
    decreases fields.len(),
{
    if fields.len() == 0 {
        return;
    }
    let init = fields.drop_last();
    let last = fields.last();
    let k = fields.len() - 1;
    lemma_extract_fields_roles(init);
    assert forall|i: int| 0 <= i < init.len() implies init[i] == fields[i] by {}
    match spec_extract_fields(init) {
        Err(_) => {
            assert(!roles_unique(init));
            let (r, i, j) = choose|r: int, i: int, j: int|
                0 <= r < 3 && 0 <= i < j < init.len() && #[trigger] has_role(init[i], r) && #[trigger] has_role(init[j], r);
            assert(has_role(fields[i], r) && has_role(fields[j], r));
        },
        Ok(p) => {
            assert(roles_found(init, p));
            assert(role_found(init, p, 0) && role_found(init, p, 1) && role_found(init, p, 2));
            if spec_extract_fields(fields) is Err {
                let r: int = if last.body && p.0 is Some {
                    0
                } else if last.query && p.1 is Some {
                    1
                } else {
                    2
                };
                assert(role_position(p, r) is Some);
                let i = role_position(p, r)->Some_0;
                assert(has_role(init[i], r));
                assert(has_role(fields[i], r) && has_role(fields[k], r));
            } else {
                let p2 = spec_extract_fields(fields)->Ok_0;
                assert forall|r: int, i: int, j: int|
                    0 <= r < 3 && 0 <= i < j < fields.len() implies !(#[trigger] has_role(fields[i], r)
                    && #[trigger] has_role(fields[j], r)) by {
                    if j < k {
                        assert(has_role(init[i], r) == has_role(fields[i], r));
                        assert(has_role(init[j], r) == has_role(fields[j], r));
                    } else {
                        if has_role(fields[i], r) && has_role(fields[j], r) {
                            assert(has_role(init[i], r));
                            assert(role_position(p, r) is Some);
                        }
                    }
                }
                assert forall|r: int| 0 <= r < 3 implies #[trigger] role_found(fields, p2, r) by {
                    assert(role_found(init, p, r));
                    if role_position(p, r) is None {
                        assert forall|x: int| 0 <= x < init.len() implies !has_role(#[trigger] fields[x], r) by {
                            assert(!has_role(init[x], r));
                        }
                    }
                }
            }
        },
    }
}

/// Whether `pat` occurs in `s`.
pub open spec fn contains_seq(s: Seq<char>, pat: Seq<char>) -> bool {
    exists|i: int| 0 <= i && i + pat.len() <= s.len() && #[trigger] s.subrange(i, i + pat.len()) == pat
}

/// `s` with every occurrence of the pair `a b` removed, scanning from the
/// start as `str::replace` does.
pub open spec fn remove_pairs(s: Seq<char>, a: char, b: char) -> Seq<char>
    decreases s.len(),
{
    if s.len() == 0 {
        Seq::empty()
    } else if s.len() >= 2 && s[0] == a && s[1] == b {
        remove_pairs(s.subrange(2, s.len() as int), a, b)
    } else {
        seq![s[0]] + remove_pairs(s.drop_first(), a, b)
    }
}

/// The number of occurrences of `c` in `s`.
pub open spec fn count_char(s: Seq<char>, c: char) -> nat
    decreases s.len(),
{
    if s.len() == 0 {
        0
    } else {
        (if s[0] == c {
            1nat
        } else {
            0nat
        }) + count_char(s.drop_first(), c)
    }
}

/// The number of positional arguments of a format string, counted as the
/// derive counts them: `{{` and `}}` are removed, then every `{` counts.
pub open spec fn spec_tuple_arguments(fmt: Seq<char>) -> nat {
    count_char(remove_pairs(remove_pairs(fmt, '{', '{'), '}', '}'), '{')
}

/// The placeholder of a named argument.
pub open spec fn placeholder(name: Seq<char>) -> Seq<char> {
    seq!['{'] + name + seq!['}']
}

/// The names of the fields whose placeholder occurs in the format string,
/// in the order of the fields.
pub open spec fn spec_named_arguments(fmt: Seq<char>, fields: Seq<FieldReceiver>) -> Seq<Seq<char>>
    decreases fields.len(),
{
    if fields.len() == 0 {
        Seq::empty()
    } else {
        let init = spec_named_arguments(fmt, fields.drop_last());
        match fields.last().ident {
            Some(n) => if contains_seq(fmt, placeholder(n@)) {
                init.push(n@)
            } else {
                init
            },
            None => init,
        }
    }
}

/// The kind of struct that the derive is applied to.
#[derive(Debug, Clone, Copy, PartialEq, Eq, Structural)]
pub enum FieldsStyle {
    Struct,
    Tuple,
    Unit,
}

/// The arguments that the path format string is given.
#[derive(Debug, Clone)]
pub enum FormatArgs {
    /// The named fields, each bound to the argument of its name
    Named(Vec<String>),
    /// The first fields of a tuple struct, in order
    Positional(usize),
    /// No arguments
    Plain,
}

/// The arguments of a format string, as texts.
pub enum SpecFormatArgs {
    Named(Seq<Seq<char>>),
    Positional(nat),
    Plain,
}

/// The texts of format arguments.
pub open spec fn format_args_view(a: FormatArgs) -> SpecFormatArgs {
    match a {
        FormatArgs::Named(v) => SpecFormatArgs::Named(views(v@)),
        FormatArgs::Positional(n) => SpecFormatArgs::Positional(n as nat),
        FormatArgs::Plain => SpecFormatArgs::Plain,
    }
}

/// The message for a tuple struct whose path names more arguments than it
/// has fields.
pub open spec fn spec_too_many_message(attribute_name: Seq<char>) -> Seq<char> {
    "Too many arguments in #["@ + attribute_name + "] format string."@
}

/// The arguments that the path format string of a struct is given: the
/// named fields whose placeholder it holds, the first fields of a tuple
/// struct as many as it holds `{`, or none for a unit struct; or the
/// message of the error.
pub open spec fn spec_expand_format_string(
    attribute_name: Seq<char>,
    fmt: Seq<char>,
    style: FieldsStyle,
    fields: Seq<FieldReceiver>,
) -> Result<SpecFormatArgs, Seq<char>> {
    match style {
        FieldsStyle::Struct => Ok(SpecFormatArgs::Named(spec_named_arguments(fmt, fields))),
        FieldsStyle::Tuple => if spec_tuple_arguments(fmt) > fields.len() {
            Err(spec_too_many_message(attribute_name))
        } else {
            Ok(SpecFormatArgs::Positional(spec_tuple_arguments(fmt)))
        },
        FieldsStyle::Unit => Ok(SpecFormatArgs::Plain),
    }
}

/// Whether `pat` occurs in `s`.
fn contains_chars(s: &Vec<char>, pat: &Vec<char>) -> (res: bool)
    ensures
        res == contains_seq(s@, pat@),
{
    let n = s.len();
    let m = pat.len();
    if m > n {
        assert forall|i: int| 0 <= i && i + pat@.len() <= s@.len() implies #[trigger] s@.subrange(i, i + pat@.len())
            != pat@ by {}
        return false;
    }
    if m == 0 {
        assert(s@.subrange(0, 0 + pat@.len() as int) =~= pat@);
        return true;
    }
    let mut i: usize = 0;
    while i <= n - m
        invariant
            n == s@.len(),
            m == pat@.len(),
            0 < m <= n,
            i <= n - m + 1,
            forall|k: int| 0 <= k < i ==> #[trigger] s@.subrange(k, k + m) != pat@,
        decreases n - m + 1 - i,
    {
        let mut j: usize = 0;
        let mut same = true;
        assert(s@.subrange(i as int, i as int) =~= pat@.subrange(0, 0));
        while j < m
            invariant
                n == s@.len(),
                m == pat@.len(),
                0 < m,
                i + m <= n,
                j <= m,
                same == (s@.subrange(i as int, i + j) == pat@.subrange(0, j as int)),
            decreases m - j,
        {
            if same && s[i + j] != pat[j] {
                assert(s@.subrange(i as int, i + j + 1)[j as int] != pat@.subrange(0, j + 1)[j as int]);
                same = false;
            } else if same {
                assert(s@.subrange(i as int, i + j + 1) =~= s@.subrange(i as int, i + j).push(s@[i + j]));
                assert(pat@.subrange(0, j + 1) =~= pat@.subrange(0, j as int).push(pat@[j as int]));
            } else {
                assert(s@.subrange(i as int, i + j) =~= s@.subrange(i as int, i + j + 1).subrange(0, j as int));
                assert(pat@.subrange(0, j as int) =~= pat@.subrange(0, j + 1).subrange(0, j as int));
            }
            j = j + 1;
        }
        assert(pat@.subrange(0, m as int) =~= pat@);
        if same {
            return true;
        }
        i = i + 1;
    }
    false
}

proof fn lemma_remove_pairs_step(s: Seq<char>, a: char, b: char, i: int)
    requires
        0 <= i < s.len(),
    ensures
        i + 1 < s.len() && s[i] == a && s[i + 1] == b ==> remove_pairs(s.subrange(i, s.len() as int), a, b)
            == remove_pairs(s.subrange(i + 2, s.len() as int), a, b),
        !(i + 1 < s.len() && s[i] == a && s[i + 1] == b) ==> remove_pairs(s.subrange(i, s.len() as int), a, b)
            == seq![s[i]] + remove_pairs(s.subrange(i + 1, s.len() as int), a, b),
{
    let t = s.subrange(i, s.len() as int);
    assert(t.drop_first() =~= s.subrange(i + 1, s.len() as int));
    if t.len() >= 2 {
        assert(t.subrange(2, t.len() as int) =~= s.subrange(i + 2, s.len() as int));
    }
}

/// `s` with every occurrence of the pair `a b` removed.
fn remove_pairs_exec(s: &Vec<char>, a: char, b: char) -> (res: Vec<char>)
    ensures
        res@ == remove_pairs(s@, a, b),
{
    let n = s.len();
    let mut out: Vec<char> = Vec::new();
    let mut i: usize = 0;
    assert(s@.subrange(0, n as int) =~= s@);
    while i < n
        invariant
            n == s@.len(),
            i <= n,
            remove_pairs(s@, a, b) == out@ + remove_pairs(s@.subrange(i as int, n as int), a, b),
        decreases n - i,
    {
        proof {
            lemma_remove_pairs_step(s@, a, b, i as int);
        }
        if i + 1 < n && s[i] == a && s[i + 1] == b {
            i = i + 2;
        } else {
            let ghost before = out@;
            out.push(s[i]);
            assert(before + (seq![s@[i as int]] + remove_pairs(s@.subrange(i + 1, n as int), a, b)) =~= out@
                + remove_pairs(s@.subrange(i + 1, n as int), a, b));
            i = i + 1;
        }
    }
    assert(s@.subrange(n as int, n as int) =~= Seq::<char>::empty());
    assert(out@ + Seq::<char>::empty() =~= out@);
    out
}

/// The number of occurrences of `c` in `s`.
fn count_char_exec(s: &Vec<char>, c: char) -> (res: usize)
    ensures
        res == count_char(s@, c),
{
    let n = s.len();
    let mut count: usize = 0;
    let mut i: usize = n;
    assert(s@.subrange(n as int, n as int) =~= Seq::<char>::empty());
    while i > 0
        invariant
            n == s@.len(),
            i <= n,
            count == count_char(s@.subrange(i as int, n as int), c),
            count <= n - i,
        decreases i,
    {
        i = i - 1;
        assert(s@.subrange(i as int, n as int).drop_first() =~= s@.subrange(i + 1, n as int));
        if s[i] == c {
            count = count + 1;
        }
    }
    assert(s@.subrange(0, n as int) =~= s@);
    count
}

/// The arguments that the path format string of a struct is given, as the
/// derive expands `#[http_request(path = ...)]`.
pub fn expand_format_string(attribute_name: &str, fmt: &str, style: FieldsStyle, fields: &Vec<FieldReceiver>) -> (res:
    Result<FormatArgs, MacroError>)
    ensures
        match spec_expand_format_string(attribute_name@, fmt@, style, fields@) {
            Ok(a) => res matches Ok(r) && format_args_view(r) == a,
            Err(m) => res matches Err(MacroError::Message { message }) && message@ == m,
        },
{
    let fmt_chars = chars_of(fmt);
    match style {
        FieldsStyle::Struct => {
            let mut names: Vec<String> = Vec::new();
            let n = fields.len();
            let mut i: usize = 0;
            while i < n
                invariant
                    n == fields@.len(),
                    i <= n,
                    fmt_chars@ == fmt@,
                    views(names@) == spec_named_arguments(fmt@, fields@.subrange(0, i as int)),
                decreases n - i,
            {
                assert(fields@.subrange(0, i + 1).drop_last() =~= fields@.subrange(0, i as int));
                assert(fields@.subrange(0, i + 1).last() == fields@[i as int]);
                match &fields[i].ident {
                    Some(name) => {
                        let mut pattern: Vec<char> = Vec::new();
                        pattern.push('{');
                        let name_chars = chars_of(name.as_str());
                        let mut k: usize = 0;
                        while k < name_chars.len()
                            invariant
                                k <= name_chars@.len(),
                                pattern@ == seq!['{'] + name_chars@.subrange(0, k as int),
                            decreases name_chars@.len() - k,
                        {
                            pattern.push(name_chars[k]);
                            assert(seq!['{'] + name_chars@.subrange(0, k + 1) =~= (seq!['{'] + name_chars@.subrange(
                                0,
                                k as int,
                            )).push(name_chars@[k as int]));
                            k = k + 1;
                        }
                        pattern.push('}');
                        assert(name_chars@.subrange(0, name_chars@.len() as int) =~= name_chars@);
                        assert(pattern@ =~= placeholder(name@));
                        if contains_chars(&fmt_chars, &pattern) {
                            let ghost before = names@;
                            names.push(name.clone());
                            assert(views(names@) =~= views(before).push(name@));
                        }
                    },
                    None => {},
                }
                i = i + 1;
            }
            assert(fields@.subrange(0, n as int) =~= fields@);
            Ok(FormatArgs::Named(names))
        },
        FieldsStyle::Tuple => {
            let without_open = remove_pairs_exec(&fmt_chars, '{', '{');
            let without_both = remove_pairs_exec(&without_open, '}', '}');
            let num_arguments = count_char_exec(&without_both, '{');
            if num_arguments > fields.len() {
                let mut message = "Too many arguments in #[".to_owned();
                message.append(attribute_name);
                message.append("] format string.");
                Err(MacroError::Message { message })
            } else {
                Ok(FormatArgs::Positional(num_arguments))
            }
        },
        FieldsStyle::Unit => Ok(FormatArgs::Plain),
    }
}

/// Whether a field has the given name.
pub open spec fn is_named(f: FieldReceiver, name: Seq<char>) -> bool {
    match f.ident {
        Some(n) => n@ == name,
        None => false,
    }
}

/// Every argument that a struct's path format string is given is the name
/// of one of its fields, and the placeholder of that name occurs in the
/// format string.
pub proof fn lemma_named_arguments(fmt: Seq<char>, fields: Seq<FieldReceiver>)
    ensures
        forall|k: int| 0 <= k < spec_named_arguments(fmt, fields).len() ==> {
            &&& contains_seq(fmt, placeholder(#[trigger] spec_named_arguments(fmt, fields)[k]))
            &&& exists|i: int| 0 <= i < fields.len() && is_named(fields[i], spec_named_arguments(fmt, fields)[k])
        },
    decreases fields.len(),
{
    if fields.len() > 0 {
        let init = fields.drop_last();
        lemma_named_arguments(fmt, init);
        let args = spec_named_arguments(fmt, fields);
        assert forall|k: int| 0 <= k < args.len() implies {
            &&& contains_seq(fmt, placeholder(#[trigger] args[k]))
            &&& exists|i: int| 0 <= i < fields.len() && is_named(fields[i], args[k])
        } by {
            if k < spec_named_arguments(fmt, init).len() {
                assert(args[k] == spec_named_arguments(fmt, init)[k]);
                let i = choose|i: int| 0 <= i < init.len() && is_named(init[i], args[k]);
                assert(fields[i] == init[i]);
            } else {
                assert(fields[fields.len() - 1] == fields.last());
            }
        }
    }
}

/// Every named field whose placeholder occurs in a struct's path format
/// string is an argument of it: no such field is left out.
pub proof fn lemma_named_arguments_complete(attribute_name: Seq<char>, fmt: Seq<char>, fields: Seq<FieldReceiver>, i: int)
    requires
        0 <= i < fields.len(),
        fields[i].ident is Some,
        contains_seq(fmt, placeholder(fields[i].ident->Some_0@)),
    ensures
        spec_named_arguments(fmt, fields).contains(fields[i].ident->Some_0@),
        spec_expand_format_string(attribute_name, fmt, FieldsStyle::Struct, fields) matches Ok(
            SpecFormatArgs::Named(args),
        ) && args.contains(fields[i].ident->Some_0@),
    decreases fields.len(),
{
    let init = fields.drop_last();
    let n = fields[i].ident->Some_0@;
    if i < fields.len() - 1 {
        assert(init[i] == fields[i]);
        lemma_named_arguments_complete(attribute_name, fmt, init, i);
        let args = spec_named_arguments(fmt, init);
        let k = choose|k: int| 0 <= k < args.len() && args[k] == n;
        let full = spec_named_arguments(fmt, fields);
        assert(full[k] == n);
    } else {
        assert(fields.last() == fields[i]);
        let full = spec_named_arguments(fmt, fields);
        assert(full[full.len() - 1] == n);
    }
}

/// The arguments follow the fields in order: a struct without fields has
/// none, and a field added after the others adds its name at the end
/// exactly where it is named and its placeholder occurs in the format
/// string, and adds nothing otherwise.
pub proof fn lemma_named_arguments_in_field_order(fmt: Seq<char>, fields: Seq<FieldReceiver>, f: FieldReceiver)
    ensures
        spec_named_arguments(fmt, Seq::empty()) == Seq::<Seq<char>>::empty(),
        f.ident matches Some(n) ==> (contains_seq(fmt, seq!['{'] + n@ + seq!['}']) ==> spec_named_arguments(
            fmt,
            fields.push(f),
        ) == spec_named_arguments(fmt, fields).push(n@)),
        f.ident matches Some(n) ==> (!contains_seq(fmt, seq!['{'] + n@ + seq!['}']) ==> spec_named_arguments(
            fmt,
            fields.push(f),
        ) == spec_named_arguments(fmt, fields)),
        f.ident is None ==> spec_named_arguments(fmt, fields.push(f)) == spec_named_arguments(fmt, fields),
{
    assert(fields.push(f).drop_last() =~= fields);
}

/// The number of `{` in a text starting with a given character.
proof fn lemma_count_char_cons(x: char, t: Seq<char>, c: char)
    ensures
        count_char(seq![x] + t, c) == (if x == c {
            1nat
        } else {
            0nat
        }) + count_char(t, c),
{
    assert((seq![x] + t).drop_first() =~= t);
}

/// Removing `}}` pairs leaves every `{` in place.
proof fn lemma_closing_pairs_keep_openings(s: Seq<char>)
    ensures
        count_char(remove_pairs(s, '}', '}'), '{') == count_char(s, '{'),
    decreases s.len(),
{
    if s.len() == 0 {
    } else if s.len() >= 2 && s[0] == '}' && s[1] == '}' {
        lemma_closing_pairs_keep_openings(s.subrange(2, s.len() as int));
        assert(s.drop_first().drop_first() =~= s.subrange(2, s.len() as int));
        assert(s.drop_first()[0] == '}');
        assert(count_char(s.drop_first(), '{') == count_char(s.drop_first().drop_first(), '{'));
    } else {
        lemma_closing_pairs_keep_openings(s.drop_first());
        lemma_count_char_cons(s[0], remove_pairs(s.drop_first(), '}', '}'), '{');
    }
}

/// How a tuple struct's path counts its arguments, read from the front of
/// the format string: an empty string has none, a character other than `{`
/// adds none, an escaped `{{` adds none, and a `{` that is not followed by
/// another `{` (or ends the string) adds one.
pub proof fn lemma_tuple_arguments(s: Seq<char>, c: char)
    ensures
        spec_tuple_arguments(Seq::empty()) == 0,
        c != '{' ==> spec_tuple_arguments(seq![c] + s) == spec_tuple_arguments(s),
        spec_tuple_arguments(seq!['{', '{'] + s) == spec_tuple_arguments(s),
        c != '{' ==> spec_tuple_arguments(seq!['{', c] + s) == 1 + spec_tuple_arguments(seq![c] + s),
        spec_tuple_arguments(seq!['{']) == 1,
{
    let e = Seq::<char>::empty();
    assert(remove_pairs(e, '{', '{') =~= e);
    lemma_closing_pairs_keep_openings(remove_pairs(e, '{', '{'));
    lemma_closing_pairs_keep_openings(remove_pairs(s, '{', '{'));
    let cs = seq![c] + s;
    lemma_closing_pairs_keep_openings(remove_pairs(cs, '{', '{'));
    assert(cs.drop_first() =~= s);
    assert(cs[0] == c);
    if c != '{' {
        assert(remove_pairs(cs, '{', '{') == seq![c] + remove_pairs(s, '{', '{'));
        lemma_count_char_cons(c, remove_pairs(s, '{', '{'), '{');
    }
    let oo = seq!['{', '{'] + s;
    lemma_closing_pairs_keep_openings(remove_pairs(oo, '{', '{'));
    assert(oo.subrange(2, oo.len() as int) =~= s);
    let oc = seq!['{', c] + s;
    lemma_closing_pairs_keep_openings(remove_pairs(oc, '{', '{'));
    if c != '{' {
        assert(oc.drop_first() =~= cs);
        assert(remove_pairs(oc, '{', '{') == seq!['{'] + remove_pairs(cs, '{', '{'));
        lemma_count_char_cons('{', remove_pairs(cs, '{', '{'), '{');
    }
    let o = seq!['{'];
    lemma_closing_pairs_keep_openings(remove_pairs(o, '{', '{'));
    assert(o.drop_first() =~= e);
    assert(remove_pairs(o, '{', '{') == seq!['{'] + remove_pairs(e, '{', '{'));
    lemma_count_char_cons('{', remove_pairs(e, '{', '{'), '{');
}

/// What each kind of struct gives its path: a unit struct gives no
/// arguments; a tuple struct gives as many leading fields as the format
/// string counts, and is refused with a message naming the attribute where
/// it counts more than the struct has fields; a struct with named fields
/// gives the names of its fields whose placeholder occurs.
pub proof fn lemma_format_string_styles(attribute_name: Seq<char>, fmt: Seq<char>, fields: Seq<FieldReceiver>)
    ensures
        spec_expand_format_string(attribute_name, fmt, FieldsStyle::Unit, fields) == Ok::<SpecFormatArgs, Seq<char>>(
            SpecFormatArgs::Plain,
        ),
        spec_tuple_arguments(fmt) <= fields.len() ==> spec_expand_format_string(
            attribute_name,
            fmt,
            FieldsStyle::Tuple,
            fields,
        ) == Ok::<SpecFormatArgs, Seq<char>>(SpecFormatArgs::Positional(spec_tuple_arguments(fmt))),
        spec_tuple_arguments(fmt) > fields.len() ==> spec_expand_format_string(
            attribute_name,
            fmt,
            FieldsStyle::Tuple,
            fields,
        ) == Err::<SpecFormatArgs, Seq<char>>(
            "Too many arguments in #["@ + attribute_name + "] format string."@,
        ),
        spec_expand_format_string(attribute_name, fmt, FieldsStyle::Struct, fields) == Ok::<SpecFormatArgs, Seq<char>>(
            SpecFormatArgs::Named(spec_named_arguments(fmt, fields)),
        ),
{
}

/// The data of the item that the derive is applied to.
#[derive(Debug, Clone)]
pub enum DeriveData {
    /// A struct, with the kind of its fields and the fields
    Struct { style: FieldsStyle, fields: Vec<FieldReceiver> },
    /// An enum
    Enum,
}

/// What the `http_request` attribute of an item says, with the item's data.
#[derive(Debug, Clone)]
pub struct RequestParameters {
    /// The method of the request
    pub method: HttpMethod,
    /// The path of the response type, as it is written
    pub response: String,
    /// The path format string
    pub path: String,
    /// The data of the item
    pub data: DeriveData,
}

/// What the derive generates a request implementation from.
#[derive(Debug, Clone)]
pub struct RequestPlan {
    /// The method of the request
    pub method: HttpMethod,
    /// The path of the response type, as it is written
    pub response: String,
    /// The path format string
    pub path: String,
    /// The arguments that the path format string is given
    pub path_args: FormatArgs,
    /// The fields that hold the body, the query and the headers
    pub fields: Fields,
}

/// Whether one of the names of a type path's segments is `HeaderMap`.
pub open spec fn names_header_map(segments: Seq<Seq<char>>) -> bool {
    exists|i: int| 0 <= i < segments.len() && #[trigger] segments[i] == "HeaderMap"@
}

/// The message for an item that is no struct.
pub open spec fn spec_not_struct_message() -> Seq<char> {
    "#[http_request(...)] can only be used with structs"@
}

/// The message for a header field whose type is no type path.
pub open spec fn spec_header_type_message() -> Seq<char> {
    "Attribute #[http_request(header)] must be applied to valid type"@
}

/// The message for a header field whose type is no header map.
pub open spec fn spec_header_map_message() -> Seq<char> {
    "Attribute #[http_request(header)] must be applied to field of type http::HeaderMap"@
}

/// The message with which the derive refuses the header field at a
/// position, if it does.
pub open spec fn spec_header_field_error(fields: Seq<FieldReceiver>, h: Option<int>) -> Option<Seq<char>> {
    match h {
        None => None,
        Some(i) => match fields[i].ty {
            FieldType::Other => Some(spec_header_type_message()),
            FieldType::Path(segs) => if names_header_map(views(segs@)) {
                None
            } else {
                Some(spec_header_map_message())
            },
        },
    }
}

/// A header field is accepted exactly where its type is a path with a
/// segment named `HeaderMap`, at any position, the first one included; a
/// path without such a segment is refused as no header map, and a type that
/// is no path is refused as no valid type.
pub proof fn lemma_header_field_type(fields: Seq<FieldReceiver>, h: int)
    requires
        0 <= h < fields.len(),
    ensures
        fields[h].ty matches FieldType::Path(segs) ==> (spec_header_field_error(fields, Some(h)) is None <==> exists|k: int|
            0 <= k < segs@.len() && #[trigger] segs@[k]@ == "HeaderMap"@),
        fields[h].ty matches FieldType::Path(segs) ==> (spec_header_field_error(fields, Some(h)) is Some
            ==> spec_header_field_error(fields, Some(h)) == Some(spec_header_map_message())),
        fields[h].ty is Other ==> spec_header_field_error(fields, Some(h)) == Some(spec_header_type_message()),
        spec_header_field_error(fields, None) is None,
        spec_header_map_message() == "Attribute #[http_request(header)] must be applied to field of type http::HeaderMap"@,
        spec_header_type_message() == "Attribute #[http_request(header)] must be applied to valid type"@,
{
    if let FieldType::Path(segs) = fields[h].ty {
        if exists|k: int| 0 <= k < segs@.len() && #[trigger] segs@[k]@ == "HeaderMap"@ {
            let k = choose|k: int| 0 <= k < segs@.len() && #[trigger] segs@[k]@ == "HeaderMap"@;
            assert(views(segs@)[k] == "HeaderMap"@);
        }
        if names_header_map(views(segs@)) {
            let k = choose|k: int| 0 <= k < views(segs@).len() && #[trigger] views(segs@)[k] == "HeaderMap"@;
            assert(segs@[k]@ == "HeaderMap"@);
        }
    }
}

/// Whether a type's path names a header map.
fn is_header_map_path(segments: &Vec<String>) -> (res: bool)
    ensures
        res == names_header_map(views(segments@)),
{
    let n = segments.len();
    let mut i: usize = 0;
    while i < n
        invariant
            n == segments@.len(),
            i <= n,
            forall|j: int| 0 <= j < i ==> views(segments@)[j] != "HeaderMap"@,
        decreases n - i,
    {
        if str_eq(segments[i].as_str(), "HeaderMap") {
            assert(views(segments@)[i as int] == "HeaderMap"@);
            return true;
        }
        i = i + 1;
    }
    false
}

/// Decides what the derive generates for an item: the item must be a
/// struct, its path format string is expanded, its body, query and header
/// fields are found, and a header field must be a header map. The errors
/// come in this order.
pub fn plan_request(params: RequestParameters) -> (res: Result<RequestPlan, MacroError>)
    ensures
        params.data is Enum ==> (res matches Err(MacroError::Message { message }) && message@ == spec_not_struct_message()),
        params.data matches DeriveData::Struct { style, fields } ==> match spec_expand_format_string(
            spec_attribute_name(),
            params.path@,
            style,
            fields@,
        ) {
            Err(m) => res matches Err(MacroError::Message { message }) && message@ == m,
            Ok(a) => match spec_extract_fields(fields@) {
                Err(role) => res matches Err(MacroError::Message { message }) && message@
                    == spec_duplicate_message(role),
                Ok((b, q, h)) => match spec_header_field_error(fields@, h) {
                    Some(m) => res matches Err(MacroError::Message { message }) && message@ == m,
                    None => res matches Ok(plan) && plan.method == params.method && plan.response@ == params.response@
                        && plan.path@ == params.path@ && format_args_view(plan.path_args) == a && refers_to(
                        plan.fields.body,
                        fields@,
                        b,
                    ) && refers_to(plan.fields.query, fields@, q) && refers_to(plan.fields.header, fields@, h),
                },
            },
        },
{
    let RequestParameters { method, response, path, data } = params;
    let (style, fields) = match data {
        DeriveData::Struct { style, fields } => (style, fields),
        DeriveData::Enum => {
            return Err(MacroError::Message { message: "#[http_request(...)] can only be used with structs".to_owned() });
        },
    };
    let path_args = match expand_format_string(attribute_name(), path.as_str(), style, &fields) {
        Ok(a) => a,
        Err(e) => return Err(e),
    };
    let found = match extract_fields(&fields) {
        Ok(f) => f,
        Err(e) => return Err(e),
    };
    proof {
        lemma_extract_fields_roles(fields@);
        if spec_extract_fields(fields@) is Ok {
            assert(role_found(fields@, spec_extract_fields(fields@)->Ok_0, 2));
        }
    }
    if let Some(header) = &found.header {
        match &fields[header.position].ty {
            FieldType::Other => {
                return Err(MacroError::Message {
                    message: "Attribute #[http_request(header)] must be applied to valid type".to_owned(),
                });
            },
            FieldType::Path(segments) => {
                if !is_header_map_path(segments) {
                    return Err(MacroError::Message {
                        message: "Attribute #[http_request(header)] must be applied to field of type http::HeaderMap".to_owned(),
                    });
                }
            },
        }
    }
    Ok(RequestPlan { method, response, path, path_args, fields: found })
}

} // verus!
