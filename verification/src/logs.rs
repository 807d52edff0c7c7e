//! Lines of the log page: the level, and the payload made readable when the
//! controller sends it as a structured JSON record.

use vstd::prelude::*;

use crate::json::{json_get, parse_json_text, parsed, JsonValue};
use crate::text::{concat, owned, push_char};

verus! {

/// What `serde_json::Value::to_string` prints for a document: compact JSON.
pub uninterp spec fn serde_compact(v: JsonValue) -> Seq<char>;

/// Turns a [`JsonValue`] back into a `serde_json::Value`, variant for
/// variant; a number text that `serde_json` does not read becomes null.
#[verifier::external_body]
fn json_to_serde(value: &JsonValue) -> serde_json::Value {
    match value {
        JsonValue::Null => serde_json::Value::Null,
        JsonValue::Bool(b) => serde_json::Value::Bool(*b),
        JsonValue::Number(n) => n.parse::<serde_json::Number>().map(serde_json::Value::Number).unwrap_or(serde_json::Value::Null),
        JsonValue::Str(s) => serde_json::Value::String(s.clone()),
        JsonValue::Array(items) => serde_json::Value::Array(items.iter().map(json_to_serde).collect()),
        JsonValue::Object(entries) => serde_json::Value::Object(
            entries.iter().map(|(k, v)| (k.clone(), json_to_serde(v))).collect(),
        ),
    }
}

/// Prints a document as compact JSON with `serde_json::Value::to_string`;
/// the named result [`serde_compact`].
#[verifier::external_body]
pub(crate) fn compact_json(value: &JsonValue) -> (r: String)
    ensures
        r@ == serde_compact(*value),
{
    json_to_serde(value).to_string()
}

/// The text of a field value: a string as it is, anything else as compact
/// JSON.
pub open spec fn field_text(v: JsonValue) -> Seq<char> {
    match v {
        JsonValue::Str(s) => s@,
        _ => serde_compact(v),
    }
}

/// `key=value` for each field, in the order of the record.
pub open spec fn field_parts(fields: Seq<(String, JsonValue)>) -> Seq<Seq<char>>
    decreases fields.len(),
{
    if fields.len() == 0 {
        Seq::empty()
    } else {
        field_parts(fields.drop_last()).push(
            fields.last().0@ + "="@ + field_text(fields.last().1),
        )
    }
}

/// The parts of a structured record: its message when it is a string, then
/// its fields when they are an object.
pub open spec fn record_parts(v: JsonValue) -> Seq<Seq<char>> {
    let message = match json_get(v, "message"@) {
        Some(JsonValue::Str(m)) => seq![m@],
        _ => Seq::empty(),
    };
    let fields = match json_get(v, "fields"@) {
        Some(JsonValue::Object(fs)) => field_parts(fs@),
        _ => Seq::empty(),
    };
    message + fields
}

/// The parts joined by single spaces.
pub open spec fn spaced(parts: Seq<Seq<char>>) -> Seq<char>
    decreases parts.len(),
{
    if parts.len() == 0 {
        Seq::empty()
    } else if parts.len() == 1 {
        parts[0]
    } else {
        spaced(parts.drop_last()) + " "@ + parts.last()
    }
}

/// A payload as the log page shows it: the parts of a structured record
/// joined by spaces, or the payload itself when it is not an object or has
/// no parts.
pub open spec fn readable_payload(payload: Seq<char>) -> Seq<char> {
    match parsed(payload) {
        Some(v) => if v is Object && record_parts(v).len() > 0 {
            spaced(record_parts(v))
        } else {
            payload
        },
        None => payload,
    }
}

/// Appends `part` to `out`, after a space when `out` holds parts already.
fn push_part(out: &mut String, part: &str, first: bool)
    ensures
        final(out)@ == (if first { old(out)@ + part@ } else { old(out)@ + " "@ + part@ }),
{
    if !first {
        push_char(out, ' ');
    }
    let ghost before = out@;
    out.append(part);
    proof {
        if !first {
            assert(before == old(out)@.push(' '));
            assert(old(out)@.push(' ') =~= old(out)@ + " "@) by {
                reveal_strlit(" ");
            }
        }
    }
}

/// A payload made readable for the log page; see [`readable_payload`].
pub fn format_log_payload(payload: &str) -> (r: String)
    ensures
        r@ == readable_payload(payload@),
{
    let value = match parse_json_text(payload) {
        Ok(v) => v,
        Err(_) => return owned(payload),
    };
    if !value.is_object() {
        return owned(payload);
    }
    let mut out = String::new();
    let mut empty = true;
    let ghost mut parts: Seq<Seq<char>> = Seq::empty();
    if let Some(m) = value.get("message") {
        if let Some(text) = m.as_str() {
            push_part(&mut out, text, true);
            empty = false;
            proof {
                parts = seq![text@];
                assert(out@ =~= spaced(parts));
            }
        }
    }
    proof {
        reveal_strlit("message");
        reveal_strlit("fields");
        assert(parts == match json_get(value, "message"@) {
            Some(JsonValue::Str(m)) => seq![m@],
            _ => Seq::<Seq<char>>::empty(),
        });
    }
    let ghost message_parts = parts;
    if let Some(f) = value.get("fields") {
        if let JsonValue::Object(fields) = f {
            let mut i: usize = 0;
            while i < fields.len()
                invariant
                    i <= fields@.len(),
                    empty == (parts.len() == 0),
                    parts == message_parts + field_parts(fields@.take(i as int)),
                    out@ == spaced(parts),
                decreases fields@.len() - i,
            {
                let key = &fields[i].0;
                let v = &fields[i].1;
                let text = match v.as_str() {
                    Some(s) => owned(s),
                    None => compact_json(v),
                };
                let a = concat(key.as_str(), "=");
                let part = concat(a.as_str(), text.as_str());
                proof {
                    assert(text@ == field_text(*v));
                    assert(fields@.take(i + 1).drop_last() =~= fields@.take(i as int));
                    assert(fields@.take(i + 1).last() == fields@[i as int]);
                }
                push_part(&mut out, part.as_str(), empty);
                proof {
                    let np = parts.push(part@);
                    assert(np.drop_last() =~= parts);
                    assert(np =~= message_parts + field_parts(fields@.take(i + 1)));
                    parts = np;
                }
                empty = false;
                i = i + 1;
            }
            proof {
                assert(fields@.take(fields@.len() as int) =~= fields@);
            }
        }
    }
    proof {
        assert(parts =~= record_parts(value));
    }
    if empty {
        owned(payload)
    } else {
        out
    }
}

/// The width of the level column.
pub const LEVEL_WIDTH: usize = 5;

/// A line of the log page: the level in capitals (Unicode upper case), padded to
/// [`LEVEL_WIDTH`], a space and the readable payload.
pub open spec fn log_line_text(level: Seq<char>, payload: Seq<char>) -> Seq<char> {
    let name = crate::text::unicode_upper(level);
    let padded = if name.len() < LEVEL_WIDTH {
        name + Seq::new((LEVEL_WIDTH - name.len()) as nat, |i: int| ' ')
    } else {
        name
    };
    padded + " "@ + readable_payload(payload)
}

/// A line of the log page for a record of `level`.
pub fn log_line(level: &str, payload: &str) -> (r: String)
    ensures
        r@ == log_line_text(level@, payload@),
{
    let mut out = crate::text::to_uppercase(level);
    let n = out.unicode_len();
    let mut k = n;
    while k < LEVEL_WIDTH
        invariant
            n <= k <= LEVEL_WIDTH || (n > LEVEL_WIDTH && k == n),
            out@ == crate::text::unicode_upper(level@) + Seq::new((k - n) as nat, |i: int| ' '),
            n == crate::text::unicode_upper(level@).len(),
        decreases LEVEL_WIDTH - k,
    {
        push_char(&mut out, ' ');
        assert(Seq::new((k + 1 - n) as nat, |i: int| ' ') =~= Seq::new((k - n) as nat, |i: int| ' ').push(' '));
        k = k + 1;
    }
    proof {
        if n >= LEVEL_WIDTH {
            assert(out@ =~= crate::text::unicode_upper(level@));
        }
    }
    let body = format_log_payload(payload);
    let a = concat(out.as_str(), " ");
    concat(a.as_str(), body.as_str())
}

} // verus!
