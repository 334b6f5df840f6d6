use vstd::prelude::*;

verus! {

/// A JSON document as the record decoder reads it.
///
/// A number holds its value when it is an integer that fits in `i64`,
/// and `None` otherwise (a fraction, or an integer out of that range).
#[derive(Debug)]
pub enum JsonValue {
    Null,
    Bool(bool),
    Number(Option<i64>),
    Str(String),
    Array(Vec<JsonValue>),
    Object(Vec<(String, JsonValue)>),
}

#[verifier::external_type_specification]
#[verifier::external_body]
pub struct ExSerdeValue(serde_json::Value);

/// The tree that serde_json reads from a text, or `None` where the text is
/// not JSON.
pub uninterp spec fn json_parse(text: Seq<char>) -> Option<JsonValue>;

/// Relies on serde_json::from_str into serde_json::Value: it parses the text
/// and fails on text that is not JSON; the outcome depends on the text alone.
#[verifier::external_body]
pub(crate) fn parse_json(text: &str) -> (r: Option<JsonValue>)
    ensures
        r == json_parse(text@),
{
    serde_json::from_str::<serde_json::Value>(text).ok().map(tree_of)
}

/// Carries serde_json's tree over into `JsonValue`, variant for variant.
#[verifier::external_body]
fn tree_of(v: serde_json::Value) -> JsonValue {
    match v {
        serde_json::Value::Null => JsonValue::Null,
        serde_json::Value::Bool(b) => JsonValue::Bool(b),
        serde_json::Value::Number(n) => JsonValue::Number(n.as_i64()),
        serde_json::Value::String(s) => JsonValue::Str(s),
        serde_json::Value::Array(a) => JsonValue::Array(a.into_iter().map(tree_of).collect()),
        serde_json::Value::Object(m) => JsonValue::Object(m.into_iter().map(|(k, x)| (k, tree_of(x))).collect()),
    }
}

/// The value stored under `key` in an object's entries; where the key
/// occurs more than once, the last entry wins.
pub open spec fn lookup(fields: Seq<(String, JsonValue)>, key: Seq<char>) -> Option<JsonValue>
    decreases fields.len(),
{
    if fields.len() == 0 {
        None
    } else if fields.last().0@ == key {
        Some(fields.last().1)
    } else {
        lookup(fields.drop_last(), key)
    }
}

/// Finds the value stored under `key`.
pub fn find_field<'a>(fields: &'a Vec<(String, JsonValue)>, key: &str) -> (r: Option<&'a JsonValue>)
    ensures
        match r {
            Some(v) => lookup(fields@, key@) == Some(*v),
            None => lookup(fields@, key@) is None,
        },
{
    let wanted = String::from_str(key);
    let mut i: usize = fields.len();
    assert(fields@.take(i as int) =~= fields@);
    while i > 0
        invariant
            i <= fields@.len(),
            wanted@ == key@,
            lookup(fields@, key@) == lookup(fields@.take(i as int), key@),
        decreases i,
    {
        let ghost pre = fields@.take(i as int);
        assert(pre.drop_last() =~= fields@.take(i - 1));
        assert(pre.len() == i);
        assert(pre.last() == fields@[i - 1]);
        let entry = &fields[i - 1];
        if entry.0 == wanted {
            assert(lookup(pre, key@) == Some(pre.last().1));
            return Some(&entry.1);
        }
        assert(lookup(pre, key@) == lookup(pre.drop_last(), key@));
        i = i - 1;
    }
    assert(fields@.take(0) =~= Seq::<(String, JsonValue)>::empty());
    None
}

/// The string under `key`; `None` where it is missing or not a string.
pub open spec fn text_at(fields: Seq<(String, JsonValue)>, key: Seq<char>) -> Option<Seq<char>> {
    match lookup(fields, key) {
        Some(JsonValue::Str(s)) => Some(s@),
        _ => None,
    }
}

/// The `i32` under `key`; `None` where it is missing, not an integer, or
/// out of range.
pub open spec fn int_at(fields: Seq<(String, JsonValue)>, key: Seq<char>) -> Option<i32> {
    match lookup(fields, key) {
        Some(JsonValue::Number(Some(n))) => if i32::MIN <= n <= i32::MAX {
            Some(n as i32)
        } else {
            None
        },
        _ => None,
    }
}

/// An optional string: `Some(None)` where the key is missing or null,
/// `Some(Some(s))` for a string, and `None` for any other value.
pub open spec fn opt_text_at(fields: Seq<(String, JsonValue)>, key: Seq<char>) -> Option<Option<Seq<char>>> {
    match lookup(fields, key) {
        None => Some(None),
        Some(JsonValue::Null) => Some(None),
        Some(JsonValue::Str(s)) => Some(Some(s@)),
        _ => None,
    }
}

/// An optional boolean, read as `opt_text_at` reads a string.
pub open spec fn opt_bool_at(fields: Seq<(String, JsonValue)>, key: Seq<char>) -> Option<Option<bool>> {
    match lookup(fields, key) {
        None => Some(None),
        Some(JsonValue::Null) => Some(None),
        Some(JsonValue::Bool(b)) => Some(Some(b)),
        _ => None,
    }
}

pub open spec fn text_view(o: Option<String>) -> Option<Seq<char>> {
    match o {
        Some(s) => Some(s@),
        None => None,
    }
}

pub open spec fn opt_text_view(o: Option<Option<String>>) -> Option<Option<Seq<char>>> {
    match o {
        Some(x) => Some(text_view(x)),
        None => None,
    }
}

pub fn text_field(fields: &Vec<(String, JsonValue)>, key: &str) -> (r: Option<String>)
    ensures
        text_view(r) == text_at(fields@, key@),
{
    match find_field(fields, key) {
        Some(JsonValue::Str(s)) => Some(s.clone()),
        _ => None,
    }
}

pub fn int_field(fields: &Vec<(String, JsonValue)>, key: &str) -> (r: Option<i32>)
    ensures
        r == int_at(fields@, key@),
{
    match find_field(fields, key) {
        Some(JsonValue::Number(Some(n))) => if i32::MIN as i64 <= *n && *n <= i32::MAX as i64 {
            Some(*n as i32)
        } else {
            None
        },
        _ => None,
    }
}

pub fn opt_text_field(fields: &Vec<(String, JsonValue)>, key: &str) -> (r: Option<Option<String>>)
    ensures
        opt_text_view(r) == opt_text_at(fields@, key@),
{
    match find_field(fields, key) {
        None => Some(None),
        Some(JsonValue::Null) => Some(None),
        Some(JsonValue::Str(s)) => Some(Some(s.clone())),
        _ => None,
    }
}

pub fn opt_bool_field(fields: &Vec<(String, JsonValue)>, key: &str) -> (r: Option<Option<bool>>)
    ensures
        r == opt_bool_at(fields@, key@),
{
    match find_field(fields, key) {
        None => Some(None),
        Some(JsonValue::Null) => Some(None),
        Some(JsonValue::Bool(b)) => Some(Some(*b)),
        _ => None,
    }
}

} // verus!
