//! Event filters: `field=value` (equal), `field!=value` (not equal) and
//! `field~=pattern` (contains). Fields are dotted paths into an event's JSON
//! payload, such as `task.status` or `items.0.name`.
use vstd::prelude::*;
use crate::error::GranaryError;
use crate::json::{lookup_path, lookup_path_exec, JsonValue};
use crate::text::{
    chars_of, concat, contains, contains_exec, find, find_in, occurs_at, lemma_concat_take, lemma_take_all,
    owned, parse_usize, parse_usize_range, push_char, push_str, split_char, split_ranges,
    string_of_range, text_eq, trim, trim_bounds,
};

verus! {

/// Filter operations.
#[derive(Debug, Clone, Copy, PartialEq, Eq, Structural)]
pub enum FilterOp {
    /// Equality: `field=value`
    Eq,
    /// Inequality: `field!=value`
    NotEq,
    /// Contains: `field~=pattern` (substring match)
    Contains,
}

impl FilterOp {
    /// The operator as written in a filter.
    pub open spec fn token(self) -> Seq<char> {
        match self {
            FilterOp::Eq => "="@,
            FilterOp::NotEq => "!="@,
            FilterOp::Contains => "~="@,
        }
    }

    /// The operator as written in a filter.
    pub fn as_str(&self) -> (r: &'static str)
        ensures
            r@ == self.token(),
    {
        match self {
            FilterOp::Eq => "=",
            FilterOp::NotEq => "!=",
            FilterOp::Contains => "~=",
        }
    }
}

/// A filter expression.
#[derive(Debug, Clone)]
pub struct Filter {
    /// The field path, dotted for nesting (such as `task.status`)
    pub field: String,
    /// The operation
    pub op: FilterOp,
    /// The value to match against
    pub value: String,
}

/// The message of a filter whose field is empty.
pub open spec fn empty_field_message() -> Seq<char> {
    "Filter field cannot be empty"@
}

/// The message of a filter without an operator.
pub open spec fn bad_format_message(s: Seq<char>) -> Seq<char> {
    "Invalid filter format: '"@ + s
        + "'. Expected 'field=value', 'field!=value', or 'field~=pattern'"@
}

/// Where the operator of a filter text stands and which one it is: the first
/// `~=` if any, else the first `!=`, else the first `=`.
pub open spec fn operator_at(s: Seq<char>) -> Option<(int, FilterOp)> {
    match find(s, "~="@) {
        Some(p) => Some((p, FilterOp::Contains)),
        None => match find(s, "!="@) {
            Some(p) => Some((p, FilterOp::NotEq)),
            None => match find(s, "="@) {
                Some(p) => Some((p, FilterOp::Eq)),
                None => None,
            },
        },
    }
}

/// The result of parsing a filter text: the trimmed text before the operator
/// as the field, the trimmed text after it as the value; an error when there
/// is no operator or the field is empty.
#[verifier::opaque]
pub open spec fn parse_spec(s: Seq<char>) -> Result<(Seq<char>, FilterOp, Seq<char>), Seq<char>> {
    match operator_at(s) {
        Some((p, op)) => {
            let field = trim(s.subrange(0, p));
            let value = trim(s.subrange(p + op.token().len(), s.len() as int));
            if field.len() == 0 {
                Err(empty_field_message())
            } else {
                Ok((field, op, value))
            }
        },
        None => Err(bad_format_message(s)),
    }
}

/// One piece of a JSON path: `[n]` for a decimal index, `.name` otherwise.
pub open spec fn path_piece(part: Seq<char>) -> Seq<char> {
    if parse_usize(part) is Some {
        "["@ + part + "]"@
    } else {
        "."@ + part
    }
}

/// The JSON path of a dotted field: `a.b.0.c` gives `$.a.b[0].c`.
pub open spec fn json_path(field: Seq<char>) -> Seq<char> {
    "$"@ + concat(split_char(field, '.').map_values(|p: Seq<char>| path_piece(p)))
}

/// The JSON value equals the text: strings and numbers by their text,
/// booleans as `true`/`false`, null as `null` or the empty text.
pub open spec fn value_equals(v: JsonValue, s: Seq<char>) -> bool {
    match v {
        JsonValue::Str(x) => x@ == s,
        JsonValue::Number(n) => n@ == s,
        JsonValue::Bool(b) => (s == "true"@ && b) || (s == "false"@ && !b),
        JsonValue::Null => s == "null"@ || s.len() == 0,
        _ => false,
    }
}

/// The JSON value contains the pattern: strings, numbers and booleans by their
/// text, arrays when an element does, objects by their JSON text, null when
/// the pattern is `null`.
pub open spec fn value_contains(v: JsonValue, pat: Seq<char>) -> bool
    decreases v,
{
    match v {
        JsonValue::Str(x) => contains(x@, pat),
        JsonValue::Number(n) => contains(n@, pat),
        JsonValue::Bool(b) => contains(if b { "true"@ } else { "false"@ }, pat),
        JsonValue::Array(es, _) => any_contains(es@, pat),
        JsonValue::Object(_, text) => contains(text@, pat),
        JsonValue::Null => pat == "null"@,
    }
}

/// Some element contains the pattern.
pub open spec fn any_contains(es: Seq<JsonValue>, pat: Seq<char>) -> bool
    decreases es,
{
    if es.len() == 0 {
        false
    } else {
        value_contains(es[0], pat) || any_contains(es.drop_first(), pat)
    }
}

/// The filter matches the payload.
pub open spec fn matches_spec(f: Filter, payload: JsonValue) -> bool {
    let found = lookup_path(payload, f.field@);
    let value = f.value@;
    match f.op {
        FilterOp::Eq => match found {
            Some(v) => value_equals(v, value),
            None => value.len() == 0 || value == "null"@,
        },
        FilterOp::NotEq => match found {
            Some(v) => !value_equals(v, value),
            None => value.len() != 0 && value != "null"@,
        },
        FilterOp::Contains => match found {
            Some(v) => value_contains(v, value),
            None => false,
        },
    }
}

/// The JSON value equals the text (see [`value_equals`]).
pub fn value_equals_exec(v: &JsonValue, s: &str) -> (r: bool)
    ensures
        r == value_equals(*v, s@),
{
    match v {
        JsonValue::Str(x) => text_eq(x.as_str(), s),
        JsonValue::Number(n) => text_eq(n.as_str(), s),
        JsonValue::Bool(b) => (text_eq(s, "true") && *b) || (text_eq(s, "false") && !*b),
        JsonValue::Null => text_eq(s, "null") || s.is_empty(),
        _ => false,
    }
}

/// The JSON value contains the pattern (see [`value_contains`]).
pub fn value_contains_exec(v: &JsonValue, pat: &str) -> (r: bool)
    ensures
        r == value_contains(*v, pat@),
    decreases v,
{
    match v {
        JsonValue::Str(x) => contains_exec(x.as_str(), pat),
        JsonValue::Number(n) => contains_exec(n.as_str(), pat),
        JsonValue::Bool(b) => contains_exec(if *b { "true" } else { "false" }, pat),
        JsonValue::Array(es, _) => {
            let mut i: usize = 0;
            assert(es@.subrange(0, es@.len() as int) =~= es@);
            while i < es.len()
                invariant
                    0 <= i <= es.len(),
                    *v == JsonValue::Array(*es, v->Array_1),
                    any_contains(es@, pat@) == any_contains(es@.subrange(i as int, es@.len() as int), pat@),
                decreases es.len() - i,
            {
                let ghost rest = es@.subrange(i as int, es@.len() as int);
                assert(rest.drop_first() =~= es@.subrange(i as int + 1, es@.len() as int));
                assert(rest[0] == es@[i as int]);
                assert(decreases_to!(*v => v->Array_0));
                assert(decreases_to!(v->Array_0 => v->Array_0@));
                assert(decreases_to!(v->Array_0@ => es@[i as int]));
                if value_contains_exec(&es[i], pat) {
                    return true;
                }
                i = i + 1;
            }
            false
        },
        JsonValue::Object(_, text) => contains_exec(text.as_str(), pat),
        JsonValue::Null => text_eq(pat, "null"),
    }
}

/// Where the operator of a filter text stands (see [`operator_at`]), which
/// one it is, and how many characters it has.
fn locate_operator(v: &Vec<char>) -> (r: Option<(usize, FilterOp, usize)>)
    ensures
        match operator_at(v@) {
            Some((p, op)) => r matches Some((q, o, w)) && q == p && o == op && w == op.token().len()
                && p + w <= v@.len(),
            None => r is None,
        },
{
    let contains_op = chars_of("~=");
    let not_eq_op = chars_of("!=");
    let eq_op = chars_of("=");
    proof {
        reveal_strlit("~=");
        reveal_strlit("!=");
        reveal_strlit("=");
    }
    let a = find_in(v, &contains_op);
    if let Some(p) = a {
        return Some((p, FilterOp::Contains, 2usize));
    }
    let b = find_in(v, &not_eq_op);
    if let Some(p) = b {
        return Some((p, FilterOp::NotEq, 2usize));
    }
    let c = find_in(v, &eq_op);
    if let Some(p) = c {
        return Some((p, FilterOp::Eq, 1usize));
    }
    None
}

impl Filter {
    /// Parses a filter text (`field=value`, `field!=value` or `field~=pattern`).
    ///
    /// The longest operators are looked for first, so `a!=b` is an inequality
    /// and `k=v=w` an equality whose value is `v=w`.
    pub fn parse(s: &str) -> (r: Result<Filter, GranaryError>)
        ensures
            match parse_spec(s@) {
                Ok((field, op, value)) => r matches Ok(f) && f.field@ == field && f.op == op
                    && f.value@ == value,
                Err(msg) => r matches Err(GranaryError::InvalidArgument(m)) && m@ == msg,
            },
    {
        reveal(parse_spec);
        let v = chars_of(s);
        let (pos, op, width) = match locate_operator(&v) {
            Some(found) => found,
            None => {
                let mut m = owned("Invalid filter format: '");
                push_str(&mut m, s);
                push_str(&mut m, "'. Expected 'field=value', 'field!=value', or 'field~=pattern'");
                return Err(GranaryError::InvalidArgument(m));
            },
        };
        let (flo, fhi) = trim_bounds(&v, 0, pos);
        let (vlo, vhi) = trim_bounds(&v, pos + width, v.len());
        if flo == fhi {
            return Err(GranaryError::InvalidArgument(owned("Filter field cannot be empty")));
        }
        let field = string_of_range(&v, flo, fhi);
        let value = string_of_range(&v, vlo, vhi);
        Ok(Filter { field, op, value })
    }

    /// The filter matches the JSON payload.
    pub fn matches(&self, payload: &JsonValue) -> (r: bool)
        ensures
            r == matches_spec(*self, *payload),
    {
        let found = lookup_path_exec(payload, self.field.as_str());
        match self.op {
            FilterOp::Eq => match found {
                Some(v) => value_equals_exec(v, self.value.as_str()),
                None => self.value.as_str().is_empty() || text_eq(self.value.as_str(), "null"),
            },
            FilterOp::NotEq => match found {
                Some(v) => !value_equals_exec(v, self.value.as_str()),
                None => !self.value.as_str().is_empty() && !text_eq(self.value.as_str(), "null"),
            },
            FilterOp::Contains => match found {
                Some(v) => value_contains_exec(v, self.value.as_str()),
                None => false,
            },
        }
    }

    /// The JSON path of the field (`a.b.0.c` gives `$.a.b[0].c`).
    pub fn field_to_json_path(&self) -> (r: String)
        ensures
            r@ == json_path(self.field@),
    {
        let v = chars_of(self.field.as_str());
        let ranges = split_ranges(&v, '.');
        let ghost parts = split_char(self.field@, '.');
        let ghost pieces = parts.map_values(|p: Seq<char>| path_piece(p));
        let mut path = owned("$");
        let ghost head = path@;
        let mut k: usize = 0;
        while k < ranges.len()
            invariant
                v@ == self.field@,
                parts == split_char(self.field@, '.'),
                pieces == parts.map_values(|p: Seq<char>| path_piece(p)),
                ranges@.len() == parts.len(),
                forall|j: int| #![trigger ranges@[j]] 0 <= j < ranges@.len() ==> {
                    &&& ranges@[j].0 <= ranges@[j].1 <= v@.len()
                    &&& v@.subrange(ranges@[j].0 as int, ranges@[j].1 as int) == parts[j]
                },
                0 <= k <= ranges.len(),
                path@ == head + concat(pieces.take(k as int)),
            decreases ranges.len() - k,
        {
            let (a, b) = ranges[k];
            let ghost here = ranges@[k as int];
            let part = string_of_range(&v, a, b);
            let ghost before = path@;
            if parse_usize_range(&v, a, b).is_some() {
                push_char(&mut path, '[');
                push_str(&mut path, part.as_str());
                push_char(&mut path, ']');
            } else {
                push_char(&mut path, '.');
                push_str(&mut path, part.as_str());
            }
            proof {
                reveal_strlit("[");
                reveal_strlit("]");
                reveal_strlit(".");
                assert(parts[k as int] == part@);
                assert(pieces[k as int] == path_piece(parts[k as int]));
                assert(path@ =~= before + pieces[k as int]);
                lemma_concat_take(pieces, k as int);
            }
            k = k + 1;
        }
        proof {
            lemma_take_all(pieces);
        }
        path
    }

    /// The SQL fragment for the filter over `json_extract` of the event
    /// payload, the JSON path to bind, and the value to bind (wrapped in `%`
    /// for a contains filter).
    pub fn to_sql(&self) -> (r: (String, String, String))
        ensures
            r.0@ == (match self.op {
                FilterOp::Eq => "json_extract(e.payload, ?) = ?"@,
                FilterOp::NotEq => "json_extract(e.payload, ?) != ?"@,
                FilterOp::Contains => "json_extract(e.payload, ?) LIKE ?"@,
            }),
            r.1@ == json_path(self.field@),
            r.2@ == (match self.op {
                FilterOp::Contains => "%"@ + self.value@ + "%"@,
                _ => self.value@,
            }),
    {
        let json_path = self.field_to_json_path();
        match self.op {
            FilterOp::Eq => (owned("json_extract(e.payload, ?) = ?"), json_path, owned(self.value.as_str())),
            FilterOp::NotEq => (owned("json_extract(e.payload, ?) != ?"), json_path, owned(self.value.as_str())),
            FilterOp::Contains => {
                let mut bind = owned("%");
                push_str(&mut bind, self.value.as_str());
                push_str(&mut bind, "%");
                (owned("json_extract(e.payload, ?) LIKE ?"), json_path, bind)
            },
        }
    }

    /// The filter as written: field, operator, value.
    pub fn to_string(&self) -> (r: String)
        ensures
            r@ == self.field@ + self.op.token() + self.value@,
    {
        let mut r = owned(self.field.as_str());
        push_str(&mut r, self.op.as_str());
        push_str(&mut r, self.value.as_str());
        r
    }
}

/// The field, operator and value of a filter.
pub open spec fn filter_parts(f: Filter) -> (Seq<char>, FilterOp, Seq<char>) {
    (f.field@, f.op, f.value@)
}

/// Parses each filter text in turn, stopping at the first that fails.
pub fn parse_filters(filters: &[String]) -> (r: Result<Vec<Filter>, GranaryError>)
    ensures
        r is Ok <==> forall|i: int| 0 <= i < filters@.len() ==> parse_spec(#[trigger] filters@[i]@) is Ok,
        r matches Ok(fs) ==> fs@.len() == filters@.len() && forall|i: int| 0 <= i < fs@.len() ==>
            parse_spec(filters@[i]@) == Ok::<(Seq<char>, FilterOp, Seq<char>), Seq<char>>(filter_parts(#[trigger] fs@[i])),
        r matches Err(e) ==> exists|i: int| 0 <= i < filters@.len() && {
            &&& parse_spec(#[trigger] filters@[i]@) matches Err(msg)
            &&& e matches GranaryError::InvalidArgument(m) && m@ == msg
            &&& forall|j: int| 0 <= j < i ==> parse_spec(#[trigger] filters@[j]@) is Ok
        },
{
    let mut out: Vec<Filter> = Vec::new();
    let mut i: usize = 0;
    while i < filters.len()
        invariant
            0 <= i <= filters.len(),
            out@.len() == i,
            forall|j: int| 0 <= j < i ==> parse_spec(#[trigger] filters@[j]@) is Ok,
            forall|j: int| 0 <= j < i ==>
                parse_spec(filters@[j]@) == Ok::<(Seq<char>, FilterOp, Seq<char>), Seq<char>>(filter_parts(#[trigger] out@[j])),
        decreases filters.len() - i,
    {
        match Filter::parse(filters[i].as_str()) {
            Ok(f) => {
                let ghost before = out@;
                out.push(f);
                assert(forall|j: int| 0 <= j < i ==> out@[j] == before[j]);
            },
            Err(e) => {
                assert(parse_spec(filters@[i as int]@) is Err);
                return Err(e);
            },
        }
        i = i + 1;
    }
    Ok(out)
}

/// Every filter matches the payload (true when there are none).
pub fn matches_all(filters: &[Filter], payload: &JsonValue) -> (r: bool)
    ensures
        r == forall|i: int| 0 <= i < filters@.len() ==> matches_spec(#[trigger] filters@[i], *payload),
{
    let mut i: usize = 0;
    while i < filters.len()
        invariant
            0 <= i <= filters.len(),
            forall|j: int| 0 <= j < i ==> matches_spec(#[trigger] filters@[j], *payload),
        decreases filters.len() - i,
    {
        if !filters[i].matches(payload) {
            return false;
        }
        i = i + 1;
    }
    true
}

/// Some filter matches the payload, or there are no filters.
pub fn matches_any(filters: &[Filter], payload: &JsonValue) -> (r: bool)
    ensures
        r == (filters@.len() == 0 || exists|i: int| 0 <= i < filters@.len() && matches_spec(#[trigger] filters@[i], *payload)),
{
    if filters.len() == 0 {
        return true;
    }
    let mut i: usize = 0;
    while i < filters.len()
        invariant
            0 <= i <= filters.len(),
            forall|j: int| 0 <= j < i ==> !matches_spec(#[trigger] filters@[j], *payload),
        decreases filters.len() - i,
    {
        if filters[i].matches(payload) {
            return true;
        }
        i = i + 1;
    }
    false
}

/// `field!=value` matches exactly the payloads that `field=value` does not
/// match.
pub proof fn law_not_equal_negates_equal(field: String, value: String, payload: JsonValue)
    ensures
        matches_spec(Filter { field: field, op: FilterOp::NotEq, value: value }, payload) == !matches_spec(
            Filter { field: field, op: FilterOp::Eq, value: value },
            payload,
        ),
{
}

/// A field that holds none of the characters operators are made of.
pub open spec fn plain_field(field: Seq<char>) -> bool {
    forall|i: int| 0 <= i < field.len() ==> #[trigger] field[i] != '=' && field[i] != '!' && field[i] != '~'
}

proof fn lemma_find_is(s: Seq<char>, needle: Seq<char>, p: int)
    requires
        occurs_at(s, needle, p),
        forall|j: int| 0 <= j < p ==> !occurs_at(s, needle, j),
    ensures
        find(s, needle) == Some(p),
{
    reveal(find);
    assert(contains(s, needle));
    let i = choose|i: int| occurs_at(s, needle, i) && forall|j: int| 0 <= j < i ==> !occurs_at(s, needle, j);
    if i < p {
        assert(!occurs_at(s, needle, i));
    } else if i > p {
        assert(!occurs_at(s, needle, p));
    }
}

proof fn lemma_find_none(s: Seq<char>, needle: Seq<char>)
    requires
        forall|i: int| !occurs_at(s, needle, i),
    ensures
        find(s, needle) is None,
{
    reveal(find);
}

/// In `s = field + tok + value`, an occurrence of a two-character operator
/// `needle` starting in `value` is an occurrence in `value`.
proof fn lemma_occurs_in_value(field: Seq<char>, tok: Seq<char>, value: Seq<char>, needle: Seq<char>, i: int)
    requires
        needle.len() == 2,
        i >= field.len() + tok.len(),
        occurs_at(field + tok + value, needle, i),
    ensures
        contains(value, needle),
{
    let s = field + tok + value;
    let k = i - field.len() - tok.len();
    assert(value.subrange(k, k + 2) =~= s.subrange(i, i + 2));
    assert(occurs_at(value, needle, k));
}

/// A filter written out as text parses back to itself, when its field is
/// plain (no operator characters) and neither its field nor its value has
/// spaces around it, and its value holds no `~=` and no `!=`.
pub proof fn law_filter_text_parses_back(field: Seq<char>, op: FilterOp, value: Seq<char>)
    requires
        field.len() > 0,
        plain_field(field),
        trim(field) == field,
        trim(value) == value,
        !contains(value, "~="@),
        !contains(value, "!="@),
    ensures
        parse_spec(field + op.token() + value) == Ok::<(Seq<char>, FilterOp, Seq<char>), Seq<char>>((field, op, value)),
{
    reveal_strlit("~=");
    reveal_strlit("!=");
    reveal_strlit("=");
    reveal(parse_spec);
    let tok = op.token();
    let s = field + tok + value;
    let n = field.len() as int;
    let t = tok.len() as int;
    assert(s.subrange(0, n) =~= field);
    assert(s.subrange(n + t, s.len() as int) =~= value);
    // No `~=` starts before the operator, nor in the operator unless it is `~=`.
    assert forall|i: int| 0 <= i < n implies !occurs_at(s, "~="@, i) && !occurs_at(s, "!="@, i)
        && !occurs_at(s, "="@, i) by {
        assert(s[i] == field[i]);
        if occurs_at(s, "~="@, i) {
            assert(s.subrange(i, i + 2)[0] == s[i]);
        }
        if occurs_at(s, "!="@, i) {
            assert(s.subrange(i, i + 2)[0] == s[i]);
        }
        if occurs_at(s, "="@, i) {
            assert(s.subrange(i, i + 1)[0] == s[i]);
        }
    }
    match op {
        FilterOp::Contains => {
            assert(s.subrange(n, n + 2) =~= "~="@);
            lemma_find_is(s, "~="@, n);
        },
        FilterOp::NotEq => {
            assert forall|i: int| !occurs_at(s, "~="@, i) by {
                if occurs_at(s, "~="@, i) {
                    assert(s.subrange(i, i + 2)[0] == s[i]);
                    assert(s.subrange(i, i + 2)[1] == s[i + 1]);
                    if i == n {
                        assert(s[n] == '!');
                    } else if i == n + 1 {
                        assert(s[n + 1] == '=');
                    } else if i >= n + 2 {
                        lemma_occurs_in_value(field, tok, value, "~="@, i);
                    }
                }
            }
            lemma_find_none(s, "~="@);
            assert(s.subrange(n, n + 2) =~= "!="@);
            lemma_find_is(s, "!="@, n);
        },
        FilterOp::Eq => {
            assert forall|i: int| !occurs_at(s, "~="@, i) && !occurs_at(s, "!="@, i) by {
                if occurs_at(s, "~="@, i) {
                    assert(s.subrange(i, i + 2)[0] == s[i]);
                    if i == n {
                        assert(s[n] == '=');
                    } else if i >= n + 1 {
                        lemma_occurs_in_value(field, tok, value, "~="@, i);
                    }
                }
                if occurs_at(s, "!="@, i) {
                    assert(s.subrange(i, i + 2)[0] == s[i]);
                    if i == n {
                        assert(s[n] == '=');
                    } else if i >= n + 1 {
                        lemma_occurs_in_value(field, tok, value, "!="@, i);
                    }
                }
            }
            lemma_find_none(s, "~="@);
            lemma_find_none(s, "!="@);
            assert(s.subrange(n, n + 1) =~= "="@);
            lemma_find_is(s, "="@, n);
        },
    }
}

} // verus!
