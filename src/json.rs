//! A JSON document as plain values, and lookups in it.
use vstd::prelude::*;

verus! {

#[verifier::external_type_specification]
#[verifier::external_body]
pub struct ExValue(serde_json::Value);

/// A JSON value.
pub enum JsonValue {
    Null,
    Bool(bool),
    /// A number, with its value when it is a non-negative integer that fits
    /// in a `u64`, and `None` for any other number.
    Number(Option<u64>),
    Str(String),
    Array(Vec<JsonValue>),
    /// The members of an object, in order; lookups take the first member
    /// with a given key.
    Object(Vec<(String, JsonValue)>),
}

/// What the JSON parser makes of a text: the document, or the message of
/// the error that stopped it.
pub uninterp spec fn parsed(text: Seq<char>) -> Result<JsonValue, Seq<char>>;

/// Copies a parsed `serde_json::Value` into the library's own type, one
/// variant for one variant. Relies on `serde_json::Number::as_u64`, which
/// gives the value exactly for a non-negative integer that fits in a `u64`,
/// and on `serde_json::Map` holding each key once.
#[verifier::external_body]
fn from_outside(v: serde_json::Value) -> JsonValue {
    match v {
        serde_json::Value::Null => JsonValue::Null,
        serde_json::Value::Bool(b) => JsonValue::Bool(b),
        serde_json::Value::Number(n) => JsonValue::Number(n.as_u64()),
        serde_json::Value::String(s) => JsonValue::Str(s),
        serde_json::Value::Array(a) => JsonValue::Array(a.into_iter().map(from_outside).collect()),
        serde_json::Value::Object(o) => JsonValue::Object(
            o.into_iter().map(|(k, x)| (k, from_outside(x))).collect(),
        ),
    }
}

/// Relies on `serde_json::from_str` into a `serde_json::Value`: the document,
/// or the error's message, depends on the text alone.
#[verifier::external_body]
pub(crate) fn parse_json(text: &str) -> (r: Result<JsonValue, String>)
    ensures
        match r {
            Ok(v) => parsed(text@) == Ok::<JsonValue, Seq<char>>(v),
            Err(e) => parsed(text@) == Err::<JsonValue, Seq<char>>(e@),
        },
{
    match serde_json::from_str::<serde_json::Value>(text) {
        Ok(v) => Ok(from_outside(v)),
        Err(e) => Err(e.to_string()),
    }
}

/// The value of the first member named `key`.
pub open spec fn member(entries: Seq<(String, JsonValue)>, key: Seq<char>) -> Option<JsonValue>
    decreases entries.len(),
{
    if entries.len() == 0 {
        None
    } else if entries[0].0@ == key {
        Some(entries[0].1)
    } else {
        member(entries.drop_first(), key)
    }
}

/// The member `key` of an object; nothing for any other value.
pub open spec fn field(v: JsonValue, key: Seq<char>) -> Option<JsonValue> {
    match v {
        JsonValue::Object(entries) => member(entries@, key),
        _ => None,
    }
}

/// The member `inner` of the member `outer`.
pub open spec fn nested(v: JsonValue, outer: Seq<char>, inner: Seq<char>) -> Option<JsonValue> {
    match field(v, outer) {
        Some(o) => field(o, inner),
        None => None,
    }
}

/// The text of a string value.
pub open spec fn text_of(v: Option<JsonValue>) -> Option<Seq<char>> {
    match v {
        Some(JsonValue::Str(s)) => Some(s@),
        _ => None,
    }
}

pub(crate) fn same_text(a: &str, b: &str) -> (r: bool)
    ensures
        r == (a@ == b@),
{
    String::from_str(a) == String::from_str(b)
}

impl JsonValue {
    /// The member `key` of an object; `None` for any other value.
    pub fn get(&self, key: &str) -> (r: Option<&JsonValue>)
        ensures
            match r {
                Some(x) => field(*self, key@) == Some(*x),
                None => field(*self, key@) is None,
            },
    {
        match self {
            JsonValue::Object(entries) => {
                let mut i: usize = 0;
                assert(field(*self, key@) == member(entries@, key@));
                assert(entries@.subrange(0, entries@.len() as int) =~= entries@);
                while i < entries.len()
                    invariant
                        i <= entries@.len(),
                        field(*self, key@) == member(entries@, key@),
                        member(entries@, key@) == member(entries@.subrange(i as int, entries@.len() as int), key@),
                    decreases entries@.len() - i,
                {
                    let ghost tail = entries@.subrange(i as int, entries@.len() as int);
                    assert(tail.drop_first() =~= entries@.subrange(i + 1, entries@.len() as int));
                    assert(tail[0] == entries@[i as int]);
                    if same_text(entries[i].0.as_str(), key) {
                        assert(tail.len() > 0 && tail[0].0@ == key@);
                        assert(member(tail, key@) == Some(entries@[i as int].1));
                        return Some(&entries[i].1);
                    }
                    i = i + 1;
                }
                None
            },
            _ => None,
        }
    }

    /// The text of a string value.
    pub fn as_str(&self) -> (r: Option<&str>)
        ensures
            match r {
                Some(s) => self is Str && s@ == self->Str_0@,
                None => !(self is Str),
            },
    {
        match self {
            JsonValue::Str(s) => Some(s.as_str()),
            _ => None,
        }
    }

    pub fn is_boolean(&self) -> (r: bool)
        ensures
            r == self is Bool,
    {
        match self {
            JsonValue::Bool(_) => true,
            _ => false,
        }
    }

    /// Whether the value is a non-negative integer that fits in a `u64`.
    pub fn is_u64(&self) -> (r: bool)
        ensures
            r == (self is Number && self->Number_0 is Some),
    {
        match self {
            JsonValue::Number(Some(_)) => true,
            _ => false,
        }
    }
}

} // verus!
