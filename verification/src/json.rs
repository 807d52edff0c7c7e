//! JSON values as the controller sends them, read through `serde_json`.

use vstd::prelude::*;

use crate::text::{parse_u64, str_eq, unsigned_text_value};

verus! {

/// A JSON document. Object members keep the order in which `serde_json`
/// hands them out.
#[derive(Debug, PartialEq, Eq)]
pub enum JsonValue {
    Null,
    Bool(bool),
    /// A number, kept as the text `serde_json` prints for it.
    Number(String),
    Str(String),
    Array(Vec<JsonValue>),
    Object(Vec<(String, JsonValue)>),
}

#[verifier::external_type_specification]
#[verifier::external_body]
pub struct ExSerdeJsonValue(serde_json::Value);

/// What `serde_json::from_str::<serde_json::Value>` yields for a text: the
/// document, or the text of the error it reports.
pub uninterp spec fn serde_parse(text: Seq<char>) -> Result<JsonValue, Seq<char>>;

/// The document `text` holds, if it is JSON.
pub open spec fn parsed(text: Seq<char>) -> Option<JsonValue> {
    match serde_parse(text) {
        Ok(v) => Some(v),
        Err(_) => None,
    }
}

/// What `serde_json::to_string_pretty` prints for the document in `text`,
/// when `text` parses.
pub uninterp spec fn serde_pretty(text: Seq<char>) -> Option<Seq<char>>;

/// Turns a `serde_json::Value` into a [`JsonValue`], variant for variant.
#[verifier::external_body]
fn json_from_serde(value: serde_json::Value) -> JsonValue {
    match value {
        serde_json::Value::Null => JsonValue::Null,
        serde_json::Value::Bool(b) => JsonValue::Bool(b),
        serde_json::Value::Number(n) => JsonValue::Number(n.to_string()),
        serde_json::Value::String(s) => JsonValue::Str(s),
        serde_json::Value::Array(items) => JsonValue::Array(items.into_iter().map(json_from_serde).collect()),
        serde_json::Value::Object(map) => JsonValue::Object(
            map.into_iter().map(|(k, v)| (k, json_from_serde(v))).collect(),
        ),
    }
}

/// Parses JSON text with `serde_json::from_str`; the document or the error
/// text is the named result [`serde_parse`].
#[verifier::external_body]
pub(crate) fn parse_json_text(text: &str) -> (r: Result<JsonValue, String>)
    ensures
        serde_parse(text@) == (match r {
            Ok(v) => Ok::<JsonValue, Seq<char>>(v),
            Err(e) => Err::<JsonValue, Seq<char>>(e@),
        }),
{
    serde_json::from_str::<serde_json::Value>(text).map(json_from_serde).map_err(|e| e.to_string())
}

/// Parses `raw` with `serde_json::from_str` and prints the document again
/// with `serde_json::to_string_pretty`; the named result [`serde_pretty`].
#[verifier::external_body]
pub(crate) fn pretty_json_text(raw: &str) -> (r: Option<String>)
    ensures
        serde_pretty(raw@) == (match r {
            Some(s) => Some(s@),
            None => None::<Seq<char>>,
        }),
{
    serde_json::from_str::<serde_json::Value>(raw).ok().and_then(|v| serde_json::to_string_pretty(&v).ok())
}

/// Index of the first member of `entries` named `key`, if any.
pub open spec fn member_index(entries: Seq<(String, JsonValue)>, key: Seq<char>) -> Option<int>
    decreases entries.len(),
{
    if entries.len() == 0 {
        None
    } else if entries[0].0@ == key {
        Some(0)
    } else {
        match member_index(entries.drop_first(), key) {
            Some(i) => Some(i + 1),
            None => None,
        }
    }
}

/// `serde_json::Value::get` with a string key: the member `key` of an object.
pub open spec fn json_get(v: JsonValue, key: Seq<char>) -> Option<JsonValue> {
    match v {
        JsonValue::Object(entries) => match member_index(entries@, key) {
            Some(i) => Some(entries@[i].1),
            None => None,
        },
        _ => None,
    }
}

proof fn lemma_member_index(entries: Seq<(String, JsonValue)>, key: Seq<char>, i: int)
    requires
        0 <= i <= entries.len(),
        forall|k: int| 0 <= k < i ==> entries[k].0@ != key,
    ensures
        i < entries.len() && entries[i].0@ == key ==> member_index(entries, key) == Some(i),
        i == entries.len() ==> member_index(entries, key) is None,
    decreases i,
{
    if i > 0 {
        lemma_member_index(entries.drop_first(), key, i - 1);
        assert(entries.drop_first().len() == entries.len() - 1);
    }
}

/// The whole number a value holds: a number printed as plain digits whose
/// value fits `u64`.
pub open spec fn json_u64(v: JsonValue) -> Option<u64> {
    match v {
        JsonValue::Number(t) => if !(t@.len() > 0 && t@[0] == '+') && unsigned_text_value(t@) is Some
            && unsigned_text_value(t@)->0 <= u64::MAX {
            Some(unsigned_text_value(t@)->0 as u64)
        } else {
            None
        },
        _ => None,
    }
}

impl JsonValue {
    /// The member `key` of an object; `serde_json::Value::get`.
    pub fn get<'a>(&'a self, key: &str) -> (r: Option<&'a JsonValue>)
        ensures
            match r {
                Some(x) => json_get(*self, key@) == Some(*x),
                None => json_get(*self, key@) is None,
            },
    {
        match self {
            JsonValue::Object(entries) => {
                let mut i: usize = 0;
                while i < entries.len()
                    invariant
                        *self == JsonValue::Object(*entries),
                        i <= entries.len(),
                        forall|k: int| 0 <= k < i ==> entries@[k].0@ != key@,
                    decreases entries.len() - i,
                {
                    if str_eq(entries[i].0.as_str(), key) {
                        proof {
                            lemma_member_index(entries@, key@, i as int);
                        }
                        return Some(&entries[i].1);
                    }
                    i = i + 1;
                }
                proof {
                    lemma_member_index(entries@, key@, i as int);
                }
                None
            },
            _ => None,
        }
    }

    /// `true` for a JSON object.
    pub fn is_object(&self) -> (r: bool)
        ensures
            r == (*self is Object),
    {
        match self {
            JsonValue::Object(_) => true,
            _ => false,
        }
    }

    /// The boolean a value holds; `serde_json::Value::as_bool`.
    pub fn as_bool(&self) -> (r: Option<bool>)
        ensures
            r == (match *self {
                JsonValue::Bool(b) => Some(b),
                _ => None::<bool>,
            }),
    {
        match self {
            JsonValue::Bool(b) => Some(*b),
            _ => None,
        }
    }

    /// The whole number a value holds when it fits `u64`;
    /// `serde_json::Value::as_u64`. Such a number is printed as plain digits.
    pub fn as_u64(&self) -> (r: Option<u64>)
        ensures
            r == json_u64(*self),
    {
        match self {
            JsonValue::Number(t) => {
                if t.unicode_len() > 0 && t.get_char(0) == '+' {
                    return None;
                }
                match parse_u64(t.as_str()) {
                    Ok(v) => Some(v),
                    Err(_) => None,
                }
            },
            _ => None,
        }
    }

    /// The string a value holds; `serde_json::Value::as_str`.
    pub fn as_str<'a>(&'a self) -> (r: Option<&'a str>)
        ensures
            match r {
                Some(s) => *self is Str && s@ == self->Str_0@,
                None => !(*self is Str),
            },
    {
        match self {
            JsonValue::Str(s) => Some(s.as_str()),
            _ => None,
        }
    }
}

} // verus!
