//! A plain model of JSON values, as the filter and template engines read them.
//!
//! Parsing is done by `serde_json`; the parsed tree is handed to the rest of the
//! library as a [`JsonValue`], whose composite nodes also carry their compact
//! JSON text (what `serde_json` prints for them).
use vstd::prelude::*;
use crate::error::GranaryError;
use crate::text::{views, owned, chars_of, parse_usize, parse_usize_range, split_char, split_ranges, string_of_range, text_eq};

verus! {

#[verifier::external_type_specification]
#[verifier::external_body]
pub struct ExSerdeJsonValue(serde_json::Value);

#[verifier::external_type_specification]
#[verifier::external_body]
pub struct ExSerdeJsonError(serde_json::Error);

/// A JSON value.
#[derive(Debug)]
pub enum JsonValue {
    /// `null`
    Null,
    /// `true` or `false`
    Bool(bool),
    /// A number, held as the text that `serde_json` prints for it.
    Number(String),
    /// A string.
    Str(String),
    /// An array: its elements, and its compact JSON text.
    Array(Vec<JsonValue>, String),
    /// An object: its members in key order, and its compact JSON text.
    Object(Vec<(String, JsonValue)>, String),
}

/// What `serde_json::from_str` parses a text into, if the text is valid JSON.
pub uninterp spec fn parsed_json(text: Seq<char>) -> Option<JsonValue>;

/// The value of the first member of `members` named `key`.
pub open spec fn member(members: Seq<(String, JsonValue)>, key: Seq<char>) -> Option<JsonValue>
    decreases members.len(),
{
    if members.len() == 0 {
        None
    } else if members[0].0@ == key {
        Some(members[0].1)
    } else {
        member(members.drop_first(), key)
    }
}

/// One step of a dotted path: a member of an object, or an element of an array
/// chosen by a decimal index.
pub open spec fn step(v: JsonValue, part: Seq<char>) -> Option<JsonValue> {
    match v {
        JsonValue::Object(ms, _) => member(ms@, part),
        JsonValue::Array(es, _) => match parse_usize(part) {
            Some(i) => if i < es@.len() { Some(es@[i as int]) } else { None },
            None => None,
        },
        _ => None,
    }
}

/// The value reached from `v` by following `parts` in turn.
pub open spec fn walk(v: JsonValue, parts: Seq<Seq<char>>) -> Option<JsonValue>
    decreases parts.len(),
{
    if parts.len() == 0 {
        Some(v)
    } else {
        match step(v, parts[0]) {
            Some(c) => walk(c, parts.drop_first()),
            None => None,
        }
    }
}

/// The value reached from `v` by the dotted path `path` (split on `.`).
pub open spec fn lookup_path(v: JsonValue, path: Seq<char>) -> Option<JsonValue> {
    walk(v, split_char(path, '.'))
}

/// Takes a `serde_json::Value` over into a [`JsonValue`], node for node:
/// numbers keep the text `serde_json` prints for them (`to_string`), and
/// arrays and objects also keep their compact text. It states nothing: its
/// result is only handed on by [`parse_json`], whose contract names it.
#[verifier::external_body]
fn from_serde(v: &serde_json::Value) -> JsonValue {
    match v {
        serde_json::Value::Null => JsonValue::Null,
        serde_json::Value::Bool(b) => JsonValue::Bool(*b),
        serde_json::Value::Number(n) => JsonValue::Number(n.to_string()),
        serde_json::Value::String(s) => JsonValue::Str(s.clone()),
        serde_json::Value::Array(a) => JsonValue::Array(a.iter().map(from_serde).collect(), v.to_string()),
        serde_json::Value::Object(m) => JsonValue::Object(
            m.iter().map(|(k, x)| (k.clone(), from_serde(x))).collect(),
            v.to_string(),
        ),
    }
}

/// Parses JSON text with `serde_json::from_str`, then takes the parsed tree
/// over member by member into a [`JsonValue`].
///
/// Claims: the result is `Ok` exactly when the text parses, and then it is the
/// value that `parsed_json` names for the text.
#[verifier::external_body]
pub(crate) fn parse_json(text: &str) -> (r: Result<JsonValue, serde_json::Error>)
    ensures
        r is Ok <==> parsed_json(text@) is Some,
        r matches Ok(v) ==> parsed_json(text@) == Some(v),
{
    match serde_json::from_str::<serde_json::Value>(text) {
        Ok(v) => Ok(from_serde(&v)),
        Err(e) => Err(e),
    }
}

/// Parses JSON text into a [`JsonValue`]; text that is not JSON gives
/// [`GranaryError::Json`].
pub fn parse_value(text: &str) -> (r: Result<JsonValue, GranaryError>)
    ensures
        r is Ok <==> parsed_json(text@) is Some,
        r matches Ok(v) ==> parsed_json(text@) == Some(v),
        r matches Err(e) ==> e is Json,
{
    match parse_json(text) {
        Ok(v) => Ok(v),
        Err(e) => Err(GranaryError::Json(e)),
    }
}

/// What `serde_json::to_string_pretty` prints for the value that
/// `serde_json::from_str` parses from `text`: none when the text is not JSON.
pub uninterp spec fn pretty_json_text(text: Seq<char>) -> Option<Seq<char>>;

/// Parses JSON text with `serde_json::from_str` and prints the value again
/// with `serde_json::to_string_pretty`.
///
/// Claims: the result is what `pretty_json_text` names for the text; there
/// is one exactly when the text parses (printing a parsed value into memory
/// cannot fail).
#[verifier::external_body]
pub(crate) fn pretty_json(text: &str) -> (r: Option<String>)
    ensures
        r is Some <==> pretty_json_text(text@) is Some,
        r matches Some(p) ==> pretty_json_text(text@) == Some(p@),
        r is Some <==> parsed_json(text@) is Some,
{
    match serde_json::from_str::<serde_json::Value>(text) {
        Ok(v) => serde_json::to_string_pretty(&v).ok(),
        Err(_) => None,
    }
}

/// The JSON text that `serde_json::to_string` writes for a list of strings.
pub uninterp spec fn string_list_json(items: Seq<Seq<char>>) -> Seq<char>;

/// Writes a list of strings as JSON text with `serde_json::to_string`.
///
/// Claims: it succeeds (a list of strings is written into memory, where
/// neither the writer nor the strings' `Serialize` can fail), and the text is
/// what `string_list_json` names for the strings.
#[verifier::external_body]
pub(crate) fn strings_to_json(items: &Vec<String>) -> (r: Result<String, serde_json::Error>)
    ensures
        r is Ok,
        r matches Ok(t) ==> t@ == string_list_json(views(items@)),
{
    serde_json::to_string(items)
}

/// The JSON text that `serde_json::to_string` writes for the object whose
/// members are `pairs` (each value a JSON string), built as a
/// `serde_json::Map`.
pub uninterp spec fn pairs_object_json(pairs: Seq<(Seq<char>, Seq<char>)>) -> Seq<char>;

/// The views of name/value pairs.
pub open spec fn pair_views(pairs: Seq<(String, String)>) -> Seq<(Seq<char>, Seq<char>)> {
    pairs.map_values(|p: (String, String)| (p.0@, p.1@))
}

/// Writes name/value pairs as a JSON object with string values: the pairs
/// go into a `serde_json::Map`, which `serde_json::to_string` writes.
///
/// Claims: it succeeds (a map with string keys and string values is written
/// into memory, where nothing can fail), and the text is what
/// `pairs_object_json` names for the pairs.
#[verifier::external_body]
pub(crate) fn pairs_to_json(pairs: &Vec<(String, String)>) -> (r: Result<String, serde_json::Error>)
    ensures
        r is Ok,
        r matches Ok(t) ==> t@ == pairs_object_json(pair_views(pairs@)),
{
    let map: serde_json::Map<String, serde_json::Value> =
        pairs.iter().map(|(k, v)| (k.clone(), serde_json::Value::String(v.clone()))).collect();
    serde_json::to_string(&map)
}

/// The value of member `key` of `members`, if any.
pub fn member_exec<'a>(members: &'a Vec<(String, JsonValue)>, key: &str) -> (r: Option<&'a JsonValue>)
    ensures
        r == (match member(members@, key@) {
            Some(x) => Some(&x),
            None => None::<&JsonValue>,
        }),
{
    let mut i: usize = 0;
    assert(members@.subrange(0, members@.len() as int) =~= members@);
    while i < members.len()
        invariant
            0 <= i <= members.len(),
            member(members@, key@) == member(members@.subrange(i as int, members@.len() as int), key@),
        decreases members.len() - i,
    {
        let ghost rest = members@.subrange(i as int, members@.len() as int);
        assert(rest.drop_first() =~= members@.subrange(i as int + 1, members@.len() as int));
        if text_eq(members[i].0.as_str(), key) {
            return Some(&members[i].1);
        }
        i = i + 1;
    }
    None
}

/// One step of a dotted path (see [`step`]).
pub fn step_exec<'a>(v: &'a JsonValue, part: &Vec<char>, from: usize, to: usize) -> (r: Option<&'a JsonValue>)
    requires
        from <= to <= part.len(),
    ensures
        r == (match step(*v, part@.subrange(from as int, to as int)) {
            Some(x) => Some(&x),
            None => None::<&JsonValue>,
        }),
{
    match v {
        JsonValue::Object(ms, _) => {
            let key = string_of_range(part, from, to);
            member_exec(ms, key.as_str())
        },
        JsonValue::Array(es, _) => {
            match parse_usize_range(part, from, to) {
                Some(i) => {
                    if i < es.len() {
                        Some(&es[i])
                    } else {
                        None
                    }
                },
                None => None,
            }
        },
        _ => None,
    }
}

/// The value reached from `v` by the dotted path `path` (see [`lookup_path`]).
pub fn lookup_path_exec<'a>(v: &'a JsonValue, path: &str) -> (r: Option<&'a JsonValue>)
    ensures
        r == (match lookup_path(*v, path@) {
            Some(x) => Some(&x),
            None => None::<&JsonValue>,
        }),
{
    let chars = chars_of(path);
    let ranges = split_ranges(&chars, '.');
    let ghost parts = split_char(path@, '.');
    let mut cur: &JsonValue = v;
    let mut k: usize = 0;
    assert(parts.skip(0) =~= parts);
    while k < ranges.len()
        invariant
            chars@ == path@,
            parts == split_char(path@, '.'),
            ranges@.len() == parts.len(),
            forall|j: int| #![trigger ranges@[j]] 0 <= j < ranges@.len() ==> {
                &&& ranges@[j].0 <= ranges@[j].1 <= chars@.len()
                &&& chars@.subrange(ranges@[j].0 as int, ranges@[j].1 as int) == parts[j]
            },
            0 <= k <= ranges.len(),
            walk(*v, parts) == walk(*cur, parts.skip(k as int)),
        decreases ranges.len() - k,
    {
        let (a, b) = ranges[k];
        let ghost here = ranges@[k as int];
        assert(parts.skip(k as int)[0] == parts[k as int]);
        assert(parts.skip(k as int).drop_first() =~= parts.skip(k as int + 1));
        match step_exec(cur, &chars, a, b) {
            Some(next) => {
                cur = next;
            },
            None => {
                return None;
            },
        }
        k = k + 1;
    }
    assert(parts.skip(k as int).len() == 0);
    Some(cur)
}

/// The strings of a JSON array whose elements are all strings.
pub open spec fn string_items(v: JsonValue) -> Option<Seq<Seq<char>>> {
    match v {
        JsonValue::Array(es, _) => if forall|i: int| 0 <= i < es@.len() ==> (#[trigger] es@[i]) is Str {
            Some(es@.map_values(|e: JsonValue| e->Str_0@))
        } else {
            None
        },
        _ => None,
    }
}

/// What deserialising JSON text into a list of strings gives, with an empty
/// list when the text is not such a list.
pub open spec fn strings_or_empty(text: Seq<char>) -> Seq<Seq<char>> {
    match parsed_json(text) {
        Some(v) => match string_items(v) {
            Some(xs) => xs,
            None => Seq::empty(),
        },
        None => Seq::empty(),
    }
}

/// The strings of `v` when it is an array of strings.
#[verifier::loop_isolation(false)]
pub fn string_array(v: &JsonValue) -> (r: Option<Vec<String>>)
    ensures
        match string_items(*v) {
            Some(xs) => r matches Some(out) && views(out@) == xs,
            None => r is None,
        },
{
    match v {
        JsonValue::Array(es, _) => {
            let mut out: Vec<String> = Vec::new();
            let mut i: usize = 0;
            while i < es.len()
                invariant
                    0 <= i <= es.len(),
                    out@.len() == i,
                    forall|j: int| 0 <= j < i ==> (#[trigger] es@[j]) is Str && out@[j]@ == es@[j]->Str_0@,
                decreases es.len() - i,
            {
                match &es[i] {
                    JsonValue::Str(s) => {
                        out.push(owned(s.as_str()));
                    },
                    _ => {
                        assert(!(es@[i as int] is Str));
                        return None;
                    },
                }
                i = i + 1;
            }
            assert(views(out@) =~= es@.map_values(|e: JsonValue| e->Str_0@));
            Some(out)
        },
        _ => None,
    }
}

/// Deserialises JSON text as a list of strings, giving an empty list when the
/// text is not valid JSON or not a list of strings.
pub fn strings_from_json(text: &str) -> (r: Vec<String>)
    ensures
        views(r@) == strings_or_empty(text@),
{
    match parse_json(text) {
        Ok(v) => match string_array(&v) {
            Some(xs) => xs,
            None => {
                let e: Vec<String> = Vec::new();
                assert(views(e@) =~= Seq::<Seq<char>>::empty());
                e
            },
        },
        Err(_) => {
            let e: Vec<String> = Vec::new();
            assert(views(e@) =~= Seq::<Seq<char>>::empty());
            e
        },
    }
}

} // verus!
