//! JSON, one level at a time: a parsed node keeps the elements of an array and
//! the members of an object as JSON text, which is parsed again where the
//! decoder descends into it.
use crate::utils::{decimal_in, parse_i64, parse_u32, parse_u64};
use serde_json::Value;
use vstd::prelude::*;
use vstd::string::*;

verus! {

/// The members of a JSON object, as key and value text, in the parser's order.
pub type Members = Seq<(Seq<char>, Seq<char>)>;

/// The model of a `JsonNode`.
pub enum JsonView {
    Null,
    Bool(bool),
    /// The number as the parser writes it.
    Number(Seq<char>),
    Str(Seq<char>),
    /// The text of each element.
    Array(Seq<Seq<char>>),
    Object(Members),
}

/// The top level of a JSON value.
#[derive(Debug, Clone)]
pub enum JsonNode {
    Null,
    Bool(bool),
    /// The number as the parser writes it (decimal digits for an integer).
    Number(String),
    Str(String),
    /// The text of each element.
    Array(Vec<String>),
    /// Each member's key and the text of its value.
    Object(Vec<(String, String)>),
}

pub open spec fn members_view(fields: Seq<(String, String)>) -> Members {
    fields.map_values(|kv: (String, String)| (kv.0@, kv.1@))
}

impl View for JsonNode {
    type V = JsonView;

    open spec fn view(&self) -> JsonView {
        match self {
            JsonNode::Null => JsonView::Null,
            JsonNode::Bool(b) => JsonView::Bool(*b),
            JsonNode::Number(n) => JsonView::Number(n@),
            JsonNode::Str(s) => JsonView::Str(s@),
            JsonNode::Array(items) => JsonView::Array(items@.map_values(|t: String| t@)),
            JsonNode::Object(fields) => JsonView::Object(members_view(fields@)),
        }
    }
}

/// What the JSON parser makes of `text`: its top level, or `None` where
/// `text` is not JSON.
pub uninterp spec fn json_node_of(text: Seq<char>) -> Option<JsonView>;

/// Relies on `serde_json::from_str` into `serde_json::Value` to parse `text`,
/// and on `Value`'s `Display`, which writes each element and member back as
/// compact JSON. The result depends on `text` alone.
#[verifier::external_body]
pub fn parse_json(text: &str) -> (r: Option<JsonNode>)
    ensures
        match r {
            Some(node) => json_node_of(text@) == Some(node@),
            None => json_node_of(text@) is None,
        },
{
    let value: Value = serde_json::from_str(text).ok()?;
    Some(
        match value {
            Value::Null => JsonNode::Null,
            Value::Bool(b) => JsonNode::Bool(b),
            Value::Number(n) => JsonNode::Number(n.to_string()),
            Value::String(s) => JsonNode::Str(s),
            Value::Array(a) => JsonNode::Array(a.iter().map(|x| x.to_string()).collect()),
            Value::Object(m) => JsonNode::Object(m.into_iter().map(|(k, x)| (k, x.to_string())).collect()),
        },
    )
}

/// The text of the first member named `key`.
pub open spec fn member_of(fields: Members, key: Seq<char>) -> Option<Seq<char>>
    decreases fields.len(),
{
    if fields.len() == 0 {
        None
    } else if fields[0].0 == key {
        Some(fields[0].1)
    } else {
        member_of(fields.drop_first(), key)
    }
}

/// The parsed member named `key`.
pub open spec fn node_member(fields: Members, key: Seq<char>) -> Option<JsonView> {
    match member_of(fields, key) {
        Some(t) => json_node_of(t),
        None => None,
    }
}

/// The member named `key`, where it is a string.
pub open spec fn str_member(fields: Members, key: Seq<char>) -> Option<Seq<char>> {
    match node_member(fields, key) {
        Some(JsonView::Str(s)) => Some(s),
        _ => None,
    }
}

/// The members of the member named `key`, where it is an object.
pub open spec fn object_member(fields: Members, key: Seq<char>) -> Option<Members> {
    match node_member(fields, key) {
        Some(JsonView::Object(m)) => Some(m),
        _ => None,
    }
}

/// The member named `key`, where it is an integer in `lo..=hi`.
pub open spec fn int_member(fields: Members, key: Seq<char>, lo: int, hi: int) -> Option<int> {
    match node_member(fields, key) {
        Some(JsonView::Number(n)) => decimal_in(n, lo, hi),
        _ => None,
    }
}

/// The text of the first member named `key`.
pub fn member<'a>(fields: &'a Vec<(String, String)>, key: &str) -> (r: Option<&'a String>)
    ensures
        match member_of(members_view(fields@), key@) {
            Some(t) => r matches Some(s) && s@ == t,
            None => r is None,
        },
{
    let ghost all = members_view(fields@);
    let k = String::from_str(key);
    assert(all.subrange(0, all.len() as int) =~= all);
    let mut i: usize = 0;
    while i < fields.len()
        invariant
            i <= fields.len(),
            all == members_view(fields@),
            k@ == key@,
            member_of(all, key@) == member_of(all.subrange(i as int, all.len() as int), key@),
        decreases fields.len() - i,
    {
        let ghost rest = all.subrange(i as int, all.len() as int);
        assert(rest[0] == (fields@[i as int].0@, fields@[i as int].1@));
        if fields[i].0 == k {
            return Some(&fields[i].1);
        }
        assert(rest.drop_first() =~= all.subrange(i + 1, all.len() as int));
        i = i + 1;
    }
    None
}

/// The parsed member named `key`.
pub fn read_node(fields: &Vec<(String, String)>, key: &str) -> (r: Option<JsonNode>)
    ensures
        match node_member(members_view(fields@), key@) {
            Some(v) => r matches Some(node) && node@ == v,
            None => r is None,
        },
{
    match member(fields, key) {
        Some(text) => parse_json(text.as_str()),
        None => None,
    }
}

/// The member named `key`, where it is a string.
pub fn read_str(fields: &Vec<(String, String)>, key: &str) -> (r: Option<String>)
    ensures
        match str_member(members_view(fields@), key@) {
            Some(v) => r matches Some(s) && s@ == v,
            None => r is None,
        },
{
    match read_node(fields, key) {
        Some(JsonNode::Str(s)) => Some(s),
        _ => None,
    }
}

/// The members of the member named `key`, where it is an object.
pub fn read_object(fields: &Vec<(String, String)>, key: &str) -> (r: Option<Vec<(String, String)>>)
    ensures
        match object_member(members_view(fields@), key@) {
            Some(v) => r matches Some(m) && members_view(m@) == v,
            None => r is None,
        },
{
    match read_node(fields, key) {
        Some(JsonNode::Object(m)) => Some(m),
        _ => None,
    }
}

/// The member named `key`, where it is an integer that fits in a `u64`.
pub fn read_u64(fields: &Vec<(String, String)>, key: &str) -> (r: Option<u64>)
    ensures
        match int_member(members_view(fields@), key@, 0, u64::MAX as int) {
            Some(v) => r == Some(v as u64),
            None => r is None,
        },
{
    match read_node(fields, key) {
        Some(JsonNode::Number(n)) => parse_u64(n.as_str()),
        _ => None,
    }
}

/// The member named `key`, where it is an integer that fits in a `u32`.
pub fn read_u32(fields: &Vec<(String, String)>, key: &str) -> (r: Option<u32>)
    ensures
        match int_member(members_view(fields@), key@, 0, u32::MAX as int) {
            Some(v) => r == Some(v as u32),
            None => r is None,
        },
{
    match read_node(fields, key) {
        Some(JsonNode::Number(n)) => parse_u32(n.as_str()),
        _ => None,
    }
}

/// The member named `key`, where it is an integer that fits in an `i64`.
pub fn read_i64(fields: &Vec<(String, String)>, key: &str) -> (r: Option<i64>)
    ensures
        match int_member(members_view(fields@), key@, i64::MIN as int, i64::MAX as int) {
            Some(v) => r == Some(v as i64),
            None => r is None,
        },
{
    match read_node(fields, key) {
        Some(JsonNode::Number(n)) => parse_i64(n.as_str()),
        _ => None,
    }
}

} // verus!
