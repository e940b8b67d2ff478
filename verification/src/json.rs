//! JSON values one level deep: a value whose elements and members are kept as
//! their own JSON text, and reading of members, strings and numbers.
use vstd::prelude::*;
use serde_json::Value;
use crate::text::same_text;

verus! {

/// A parsed JSON value. The elements of an array and the members' values of an
/// object are kept as their compact JSON text, to be parsed in turn.
#[derive(Debug, PartialEq)]
pub enum Json {
    Null,
    Bool(bool),
    /// A number, as the bits of its `f64` value where it has one.
    Number(Option<u64>),
    Text(String),
    /// The elements, each as its JSON text.
    Array(Vec<String>),
    /// The members in order, each value as its JSON text.
    Object(Vec<(String, String)>),
}

/// `Json` with its texts as character sequences.
pub enum JsonView {
    Null,
    Bool(bool),
    Number(Option<u64>),
    Text(Seq<char>),
    Array(Seq<Seq<char>>),
    Object(Seq<(Seq<char>, Seq<char>)>),
}

/// The characters of each string.
pub open spec fn texts_view(v: Seq<String>) -> Seq<Seq<char>> {
    v.map_values(|s: String| s@)
}

/// The characters of each member's key and value text.
pub open spec fn members_view(v: Seq<(String, String)>) -> Seq<(Seq<char>, Seq<char>)> {
    v.map_values(|m: (String, String)| (m.0@, m.1@))
}

impl View for Json {
    type V = JsonView;

    open spec fn view(&self) -> JsonView {
        match self {
            Json::Null => JsonView::Null,
            Json::Bool(b) => JsonView::Bool(*b),
            Json::Number(n) => JsonView::Number(*n),
            Json::Text(s) => JsonView::Text(s@),
            Json::Array(a) => JsonView::Array(texts_view(a@)),
            Json::Object(o) => JsonView::Object(members_view(o@)),
        }
    }
}

/// A parse result, or the parser's error message, seen through the views.
pub open spec fn json_parsed(r: Result<Json, String>) -> Result<JsonView, Seq<char>> {
    match r {
        Ok(v) => Ok(v@),
        Err(e) => Err(e@),
    }
}

/// What `serde_json` parses of a JSON text, one level deep, or the message of
/// the error that rejects the text.
pub uninterp spec fn json_text(text: Seq<char>) -> Result<JsonView, Seq<char>>;

/// Parses `text` with `serde_json::from_str` into a `serde_json::Value` and
/// converts its top level: each variant to the same variant, a number to the
/// bits of its `as_f64`, each element and member value to its JSON text (its
/// `Display`), an error to its message. The result is named `json_text`: it
/// depends on the text alone. Nothing more is stated of how JSON is parsed.
#[verifier::external_body]
pub(crate) fn parse_json(text: &str) -> (r: Result<Json, String>)
    ensures
        json_parsed(r) == json_text(text@),
{
    let v: Value = serde_json::from_str(text).map_err(|e| e.to_string())?;
    Ok(match v {
        Value::Null => Json::Null,
        Value::Bool(b) => Json::Bool(b),
        Value::Number(n) => Json::Number(n.as_f64().map(|x| x.to_bits())),
        Value::String(s) => Json::Text(s),
        Value::Array(a) => Json::Array(a.iter().map(ToString::to_string).collect()),
        Value::Object(o) => Json::Object(o.iter().map(|(k, m)| (k.clone(), m.to_string())).collect()),
    })
}

/// The value text of the first member named `key` at or after position `i`.
pub open spec fn member_from(ms: Seq<(Seq<char>, Seq<char>)>, key: Seq<char>, i: int) -> Option<Seq<char>>
    decreases ms.len() - i,
{
    if i < 0 || i >= ms.len() {
        None
    } else if ms[i].0 == key {
        Some(ms[i].1)
    } else {
        member_from(ms, key, i + 1)
    }
}

/// The JSON text of member `key` of `v`: none where `v` is no object or has no
/// such member.
pub open spec fn member_of(v: JsonView, key: Seq<char>) -> Option<Seq<char>> {
    match v {
        JsonView::Object(ms) => member_from(ms, key, 0),
        _ => None,
    }
}

/// The JSON text of member `key` of the value written as `text`, if any.
pub open spec fn member_in(text: Option<Seq<char>>, key: Seq<char>) -> Option<Seq<char>> {
    match text {
        Some(t) => match json_text(t) {
            Ok(v) => member_of(v, key),
            Err(_) => None,
        },
        None => None,
    }
}

/// The string that `text` writes, if it writes one.
pub open spec fn string_in(text: Option<Seq<char>>) -> Option<Seq<char>> {
    match text {
        Some(t) => match json_text(t) {
            Ok(JsonView::Text(s)) => Some(s),
            _ => None,
        },
        None => None,
    }
}

/// The bits of the `f64` value of the number that `text` writes, if it writes one.
pub open spec fn number_in(text: Option<Seq<char>>) -> Option<u64> {
    match text {
        Some(t) => match json_text(t) {
            Ok(JsonView::Number(n)) => n,
            _ => None,
        },
        None => None,
    }
}

/// The characters of an optional string.
pub open spec fn text_of(o: Option<String>) -> Option<Seq<char>> {
    match o {
        Some(s) => Some(s@),
        None => None,
    }
}

/// The JSON text of member `key` of `v`, if `v` is an object that has it.
pub fn member(v: &Json, key: &str) -> (r: Option<String>)
    ensures
        text_of(r) == member_of(v@, key@),
{
    match v {
        Json::Object(ms) => {
            let ghost mv = members_view(ms@);
            let n = ms.len();
            let mut i: usize = 0;
            while i < n
                invariant
                    n == ms.len(),
                    mv == members_view(ms@),
                    v@ == JsonView::Object(mv),
                    i <= n,
                    member_from(mv, key@, i as int) == member_from(mv, key@, 0),
                decreases n - i,
            {
                let (k, m) = &ms[i];
                assert(mv[i as int] == (k@, m@));
                if same_text(k, key) {
                    assert(member_from(mv, key@, i as int) == Some(m@));
                    return Some(m.as_str().to_owned());
                }
                i = i + 1;
            }
            None
        },
        _ => None,
    }
}

/// The JSON text of member `key` of the value written as `text`, if any.
pub fn member_of_text(text: &Option<String>, key: &str) -> (r: Option<String>)
    ensures
        text_of(r) == member_in(text_of(*text), key@),
{
    match text {
        Some(t) => match parse_json(t.as_str()) {
            Ok(v) => member(&v, key),
            Err(_) => None,
        },
        None => None,
    }
}

/// The string that `text` writes, if it writes one.
pub fn string_of_text(text: &Option<String>) -> (r: Option<String>)
    ensures
        text_of(r) == string_in(text_of(*text)),
{
    match text {
        Some(t) => match parse_json(t.as_str()) {
            Ok(Json::Text(s)) => Some(s),
            _ => None,
        },
        None => None,
    }
}

/// The bits of the `f64` value of the number that `text` writes, if it writes one.
pub fn number_of_text(text: &Option<String>) -> (r: Option<u64>)
    ensures
        r == number_in(text_of(*text)),
{
    match text {
        Some(t) => match parse_json(t.as_str()) {
            Ok(Json::Number(n)) => n,
            _ => None,
        },
        None => None,
    }
}

} // verus!
