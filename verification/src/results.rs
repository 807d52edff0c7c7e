//! How the answers of API operations are shown, and how the parameters
//! typed on the control pages are read before a request is made.

use vstd::prelude::*;

use crate::api::ApiParams;
use crate::json::{json_get, parse_json_text, pretty_json_text, serde_parse, serde_pretty, JsonValue};
use crate::model::{is_built_in, is_group, is_normal, Delay, Proxies, Proxy};
use crate::path::opt_str;
use crate::row_text::{char_utf8_len, utf8_len};
use crate::text::{
    chars_of, concat, decimal, owned, parse_u64, parse_usize, push_char, string_of_chars, trim,
    trim_spec, u64_to_decimal, unsigned_text_value, usize_to_decimal,
};

verus! {

/// `ERR ` and the error text.
pub open spec fn err_text(e: Seq<char>) -> Seq<char> {
    "ERR "@ + e
}

fn err_string(e: &str) -> (r: String)
    ensures
        r@ == err_text(e@),
{
    concat("ERR ", e)
}

/// The answer of an operation that returns nothing: `OK`, or the error.
pub fn unit_result(result: Result<(), String>) -> (r: String)
    ensures
        r@ == (match result {
            Ok(()) => "OK"@,
            Err(e) => err_text(e@),
        }),
{
    match result {
        Ok(()) => owned("OK"),
        Err(e) => err_string(e.as_str()),
    }
}

/// The answer of an operation that returns text: pretty JSON when the text
/// is JSON, the text itself otherwise, or the error.
pub fn text_result(result: Result<String, String>) -> (r: String)
    ensures
        r@ == (match result {
            Ok(v) => match serde_pretty(v@) {
                Some(p) => p,
                None => v@,
            },
            Err(e) => err_text(e@),
        }),
{
    match result {
        Ok(v) => match pretty_json_text(v.as_str()) {
            Some(p) => p,
            None => v,
        },
        Err(e) => err_string(e.as_str()),
    }
}

/// The answer of a delay test: `OK <delay> ms`, or the error.
pub fn delay_result(result: Result<Delay, String>) -> (r: String)
    ensures
        r@ == (match result {
            Ok(d) => "OK "@ + decimal(d.delay as nat) + " ms"@,
            Err(e) => err_text(e@),
        }),
{
    match result {
        Ok(d) => {
            let mut r = owned("OK ");
            let n = u64_to_decimal(d.delay);
            r.append(n.as_str());
            r.append(" ms");
            r
        },
        Err(e) => err_string(e.as_str()),
    }
}

/// The answer of an operation that returns a JSON document, given as the
/// text the controller sent: the document printed pretty, or the error.
pub fn json_result(result: Result<String, String>) -> (r: String)
    ensures
        r@ == (match result {
            Ok(v) => match serde_pretty(v@) {
                Some(p) => p,
                None => v@,
            },
            Err(e) => err_text(e@),
        }),
{
    text_result(result)
}

/// How many leading characters of `s`, from the `i`-th on, fit in `n` bytes
/// of UTF-8.
pub open spec fn fitting(s: Seq<char>, n: int, i: int) -> int
    decreases s.len() - i,
{
    if 0 <= i < s.len() && utf8_len(s.take(i + 1)) <= n {
        fitting(s, n, i + 1)
    } else {
        i
    }
}

/// A text longer than `limit` bytes cut to its first `limit - 3` bytes (none
/// when `limit` is below 3) and `...`; a shorter one as it is.
pub open spec fn truncated(s: Seq<char>, limit: nat) -> Seq<char> {
    let keep: int = if limit >= 3 { limit - 3 } else { 0 };
    if utf8_len(s) > limit {
        s.take(fitting(s, keep, 0)) + "..."@
    } else {
        s
    }
}

/// A text longer than `limit` bytes can be cut at `limit - 3` bytes: that
/// many bytes end on a character boundary.
pub open spec fn cuttable(s: Seq<char>, limit: nat) -> bool {
    let keep: int = if limit >= 3 { limit - 3 } else { 0 };
    utf8_len(s) > limit ==> utf8_len(s.take(fitting(s, keep, 0))) == keep
}

/// A text cut to `limit` bytes; see [`truncated`]. The cut must fall on a
/// character boundary, as `String::truncate` asks.
pub fn truncate(value: String, limit: usize) -> (r: String)
    requires
        cuttable(value@, limit as nat),
    ensures
        r@ == truncated(value@, limit as nat),
{
    if !longer_than(value.as_str(), limit) {
        return value;
    }
    let keep: usize = if limit >= 3 {
        limit - 3
    } else {
        0
    };
    let n = value.unicode_len();
    let mut i: usize = 0;
    let mut used: usize = 0;
    proof {
        assert(value@.take(0) =~= Seq::<char>::empty());
    }
    while i < n && char_width(value.get_char(i)) <= keep - used
        invariant
            n == value@.len(),
            i <= n,
            used == utf8_len(value@.take(i as int)),
            used <= keep,
            fitting(value@, keep as int, 0) == fitting(value@, keep as int, i as int),
        decreases n - i,
    {
        proof {
            assert(value@.take(i + 1).drop_last() =~= value@.take(i as int));
            assert(value@.take(i + 1).last() == value@[i as int]);
        }
        used = used + char_width(value.get_char(i));
        i = i + 1;
    }
    proof {
        if i < n {
            assert(value@.take(i + 1).drop_last() =~= value@.take(i as int));
            assert(value@.take(i + 1).last() == value@[i as int]);
        }
    }
    let mut r = value.substring_char(0, i).to_owned();
    r.append("...");
    r
}

/// Whether `s` has more than `limit` bytes in UTF-8.
fn longer_than(s: &str, limit: usize) -> (r: bool)
    ensures
        r == (utf8_len(s@) > limit),
{
    let n = s.unicode_len();
    let mut total: u128 = 0;
    let mut i: usize = 0;
    while i < n && total <= limit as u128
        invariant
            n == s@.len(),
            i <= n,
            total == utf8_len(s@.take(i as int)),
            total <= limit as u128 + 4,
        decreases n - i,
    {
        proof {
            assert(s@.take(i + 1).drop_last() =~= s@.take(i as int));
            assert(s@.take(i + 1).last() == s@[i as int]);
        }
        total = total + char_width(s.get_char(i)) as u128;
        i = i + 1;
    }
    proof {
        crate::row_text::lemma_utf8_len_prefix(s@, i as int);
        if i == n {
            assert(s@.take(n as int) =~= s@);
        }
    }
    total > limit as u128
}

/// The number of bytes of `c` in UTF-8.
fn char_width(c: char) -> (r: usize)
    ensures
        r == char_utf8_len(c),
        r <= 4,
{
    if (c as u32) < 0x80 {
        1
    } else if (c as u32) < 0x800 {
        2
    } else if (c as u32) < 0x10000 {
        3
    } else {
        4
    }
}

/// The answer of reading one message of a WebSocket endpoint: `WS`, a line
/// break and the message printed pretty when it is JSON, `WS ` and the
/// message cut to 160 bytes otherwise, or the error.
pub fn websocket_result(result: Result<String, String>) -> (r: String)
    requires
        result matches Ok(v) ==> cuttable("WS "@ + v@, 160),
    ensures
        r@ == (match result {
            Ok(v) => match serde_pretty(v@) {
                Some(p) => "WS\n"@ + p,
                None => truncated("WS "@ + v@, 160),
            },
            Err(e) => err_text(e@),
        }),
{
    match result {
        Ok(v) => match pretty_json_text(v.as_str()) {
            Some(p) => concat("WS\n", p.as_str()),
            None => truncate(concat("WS ", v.as_str()), 160),
        },
        Err(e) => err_string(e.as_str()),
    }
}

/// The answer of opening a stream: it is only reported as connected.
pub fn stream_result(result: Result<(), String>) -> (r: String)
    ensures
        r@ == (match result {
            Ok(()) => "OK connected to stream"@,
            Err(e) => err_text(e@),
        }),
{
    match result {
        Ok(()) => owned("OK connected to stream"),
        Err(e) => err_string(e.as_str()),
    }
}

/// Reads typed JSON; the error reads `ERR invalid json: ` and what the
/// parser reported.
pub fn parse_json(raw: &str) -> (r: Result<JsonValue, String>)
    ensures
        match serde_parse(raw@) {
            Ok(v) => r == Ok::<JsonValue, String>(v),
            Err(e) => r matches Err(m) && m@ == "ERR invalid json: "@ + e,
        },
{
    match parse_json_text(raw) {
        Ok(v) => Ok(v),
        Err(e) => Err(concat("ERR invalid json: ", e.as_str())),
    }
}

/// Reads an optional number parameter: nothing when it is blank, the number
/// when it is one, and otherwise an error that names the parameter.
pub fn parse_optional_u64(raw: &str, label: &str) -> (r: Result<Option<u64>, String>)
    ensures
        trim_spec(raw@).len() == 0 ==> r == Ok::<Option<u64>, String>(None),
        trim_spec(raw@).len() > 0 ==> match unsigned_text_value(trim_spec(raw@)) {
            Some(n) if n <= u64::MAX => r == Ok::<Option<u64>, String>(Some(n as u64)),
            _ => r matches Err(m) && m@.len() >= ("ERR invalid "@ + label@ + ": "@).len() && m@.subrange(
                0,
                ("ERR invalid "@ + label@ + ": "@).len() as int,
            ) == "ERR invalid "@ + label@ + ": "@,
        },
{
    let t = trim(raw);
    if t.unicode_len() == 0 {
        return Ok(None);
    }
    match parse_u64(t.as_str()) {
        Ok(v) => Ok(Some(v)),
        Err(e) => {
            let mut m = concat("ERR invalid ", label);
            m.append(": ");
            let ghost head = m@;
            m.append(e.as_str());
            assert(m@.subrange(0, head.len() as int) =~= head);
            Err(m)
        },
    }
}

/// What the rule switches of `entries` read as: each member's name as a
/// rule index and its value as whether the rule is disabled. The first
/// member that fails decides the error.
pub open spec fn rules_disable_spec(entries: Seq<(String, JsonValue)>) -> Result<Seq<(usize, bool)>, ()>
    decreases entries.len(),
{
    if entries.len() == 0 {
        Ok(Seq::empty())
    } else {
        match rules_disable_spec(entries.drop_last()) {
            Err(()) => Err(()),
            Ok(rest) => {
                let (name, value) = entries.last();
                match unsigned_text_value(name@) {
                    Some(n) if n <= usize::MAX => match value {
                        JsonValue::Bool(b) => Ok(rest.push((n as usize, b))),
                        _ => Err(()),
                    },
                    _ => Err(()),
                }
            },
        }
    }
}

/// Reads the rules-disable parameter: a JSON object from rule indices to
/// whether each rule is disabled.
///
/// Errors: the JSON error, `ERR rules disable json must be an object`,
/// `ERR invalid rule index <name>: <reason>`, or `ERR rule <index> value must
/// be boolean`, for the first member in document order that is wrong.
pub fn parse_rules_disable(raw: &str) -> (r: Result<Vec<(usize, bool)>, String>)
    ensures
        match serde_parse(raw@) {
            Err(e) => r matches Err(m) && m@ == "ERR invalid json: "@ + e,
            Ok(JsonValue::Object(entries)) => match rules_disable_spec(entries@) {
                Ok(rules) => r matches Ok(v) && v@ == rules,
                Err(()) => r is Err,
            },
            Ok(_) => r matches Err(m) && m@ == "ERR rules disable json must be an object"@,
        },
{
    let value = match parse_json(raw) {
        Ok(v) => v,
        Err(e) => return Err(e),
    };
    let entries = match value {
        JsonValue::Object(entries) => entries,
        _ => return Err(owned("ERR rules disable json must be an object")),
    };
    let mut rules: Vec<(usize, bool)> = Vec::new();
    let mut i: usize = 0;
    while i < entries.len()
        invariant
            serde_parse(raw@) == Ok::<JsonValue, Seq<char>>(JsonValue::Object(entries)),
            i <= entries@.len(),
            rules_disable_spec(entries@.subrange(0, i as int)) == Ok::<Seq<(usize, bool)>, ()>(
                rules@,
            ),
        decreases entries@.len() - i,
    {
        proof {
            assert(entries@.subrange(0, i + 1).drop_last() =~= entries@.subrange(0, i as int));
        }
        let index = match parse_usize(entries[i].0.as_str()) {
            Ok(n) => n,
            Err(e) => {
                let mut m = concat("ERR invalid rule index ", entries[i].0.as_str());
                m.append(": ");
                m.append(e.as_str());
                proof {
                    lemma_rules_disable_fails(entries@, i as int);
                }
                return Err(m);
            },
        };
        match entries[i].1.as_bool() {
            Some(b) => rules.push((index, b)),
            None => {
                let mut m = owned("ERR rule ");
                let n = usize_to_decimal(index);
                m.append(n.as_str());
                m.append(" value must be boolean");
                proof {
                    lemma_rules_disable_fails(entries@, i as int);
                }
                return Err(m);
            },
        }
        i = i + 1;
    }
    assert(entries@.subrange(0, entries@.len() as int) =~= entries@);
    Ok(rules)
}

/// Once a prefix fails, every longer prefix fails.
proof fn lemma_rules_disable_fails(entries: Seq<(String, JsonValue)>, i: int)
    requires
        0 <= i < entries.len(),
        rules_disable_spec(entries.subrange(0, i + 1)) is Err,
    ensures
        rules_disable_spec(entries) is Err,
    decreases entries.len() - i,
{
    if i + 1 < entries.len() {
        assert(entries.subrange(0, i + 2).drop_last() =~= entries.subrange(0, i + 1));
        lemma_rules_disable_fails(entries, i + 1);
    } else {
        assert(entries.subrange(0, i + 1) =~= entries);
    }
}

/// A parameter given by the user, or `None` when it is empty.
pub fn configured(value: &str) -> (r: Option<String>)
    ensures
        match r {
            Some(s) => value@.len() > 0 && s@ == value@,
            None => value@.len() == 0,
        },
{
    match opt_str(value) {
        Some(v) => Some(owned(v)),
        None => None,
    }
}

/// The name of the first item of `items` that has a string `name`.
pub open spec fn first_item_name(items: Seq<JsonValue>) -> Option<Seq<char>>
    decreases items.len(),
{
    if items.len() == 0 {
        None
    } else {
        match json_get(items[0], "name"@) {
            Some(JsonValue::Str(s)) => Some(s@),
            _ => first_item_name(items.drop_first()),
        }
    }
}

/// The first child of `container` in a provider answer, or of the answer
/// itself when it has no such member: the first member name of an object,
/// or the first `name` of an array of objects.
pub open spec fn named_child(value: JsonValue, container: Seq<char>) -> Option<Seq<char>> {
    let inner = match json_get(value, container) {
        Some(v) => v,
        None => value,
    };
    match inner {
        JsonValue::Object(entries) => if entries@.len() > 0 {
            Some(entries@[0].0@)
        } else {
            None
        },
        JsonValue::Array(items) => first_item_name(items@),
        _ => None,
    }
}

proof fn lemma_first_item_name(items: Seq<JsonValue>, i: int)
    requires
        0 <= i <= items.len(),
        forall|k: int| 0 <= k < i ==> !(json_get(#[trigger] items[k], "name"@) matches Some(JsonValue::Str(_))),
    ensures
        first_item_name(items) == first_item_name(items.subrange(i, items.len() as int)),
    decreases i,
{
    if i > 0 {
        lemma_first_item_name(items, i - 1);
        let tail = items.subrange(i - 1, items.len() as int);
        assert(tail.len() > 0);
        assert(tail[0] == items[i - 1]);
        assert(!(json_get(items[i - 1], "name"@) matches Some(JsonValue::Str(_))));
        assert(tail.drop_first() =~= items.subrange(i, items.len() as int));
        assert(first_item_name(tail) == first_item_name(tail.drop_first()));
    } else {
        assert(items.subrange(0, items.len() as int) =~= items);
    }
}

/// The first child named in a provider answer; see [`named_child`].
pub fn first_named_child(value: &JsonValue, container: &str) -> (r: Option<String>)
    ensures
        match r {
            Some(s) => named_child(*value, container@) == Some(s@),
            None => named_child(*value, container@) is None,
        },
{
    let inner = match value.get(container) {
        Some(v) => v,
        None => value,
    };
    match inner {
        JsonValue::Object(entries) => {
            if entries.len() > 0 {
                Some(entries[0].0.clone())
            } else {
                None
            }
        },
        JsonValue::Array(items) => {
            let mut i: usize = 0;
            while i < items.len()
                invariant
                    *inner == JsonValue::Array(*items),
                    *inner == (match json_get(*value, container@) {
                        Some(v) => v,
                        None => *value,
                    }),
                    i <= items@.len(),
                    forall|k: int|
                        0 <= k < i ==> !(json_get(#[trigger] items@[k], "name"@) matches Some(
                            JsonValue::Str(_),
                        )),
                decreases items@.len() - i,
            {
                match items[i].get("name") {
                    Some(n) => match n.as_str() {
                        Some(s) => {
                            proof {
                                lemma_first_item_name(items@, i as int);
                                let tail = items@.subrange(i as int, items@.len() as int);
                                assert(tail[0] == items@[i as int]);
                            }
                            return Some(owned(s));
                        },
                        None => {},
                    },
                    None => {},
                }
                i = i + 1;
            }
            proof {
                lemma_first_item_name(items@, i as int);
                assert(items@.subrange(i as int, items@.len() as int).len() == 0);
            }
            None
        },
        _ => None,
    }
}

/// `i` is the first position in `entries` whose proxy has `pred`.
pub open spec fn first_where(entries: Seq<(String, Proxy)>, pred: spec_fn(Proxy) -> bool, i: int) -> bool {
    &&& 0 <= i < entries.len()
    &&& pred(entries[i].1)
    &&& forall|j: int| 0 <= j < i ==> !pred(#[trigger] entries[j].1)
}

/// The name of the first proxy of `entries` with `pred`.
pub open spec fn first_name_where(entries: Seq<(String, Proxy)>, pred: spec_fn(Proxy) -> bool) -> Option<Seq<char>> {
    if exists|i: int| first_where(entries, pred, i) {
        Some(entries[choose|i: int| first_where(entries, pred, i)].0@)
    } else {
        None
    }
}

proof fn lemma_first_where_unique(entries: Seq<(String, Proxy)>, pred: spec_fn(Proxy) -> bool, i: int)
    requires
        first_where(entries, pred, i),
    ensures
        first_name_where(entries, pred) == Some(entries[i].0@),
{
    let c = choose|k: int| first_where(entries, pred, k);
    assert(first_where(entries, pred, c));
    if c < i {
        assert(!pred(entries[c].1));
    } else if i < c {
        assert(!pred(entries[i].1));
    }
}

fn find_first(entries: &Vec<(String, Proxy)>, group: bool, built_in: bool) -> (r: Option<usize>)
    ensures
        match r {
            Some(i) => first_where(entries@, |p: Proxy| kind_pick(p, group, built_in), i as int),
            None => forall|j: int|
                0 <= j < entries@.len() ==> !kind_pick(#[trigger] entries@[j].1, group, built_in),
        },
{
    let mut i: usize = 0;
    while i < entries.len()
        invariant
            i <= entries@.len(),
            forall|j: int| 0 <= j < i ==> !kind_pick(#[trigger] entries@[j].1, group, built_in),
        decreases entries@.len() - i,
    {
        let t = entries[i].1.proxy_type;
        let hit = if group {
            t.is_group()
        } else if built_in {
            t.is_built_in()
        } else {
            t.is_normal()
        };
        if hit {
            return Some(i);
        }
        i = i + 1;
    }
    None
}

/// Groups when `group`, built-in proxies when `built_in`, normal proxies
/// otherwise.
pub open spec fn kind_pick(p: Proxy, group: bool, built_in: bool) -> bool {
    if group {
        is_group(p.proxy_type)
    } else if built_in {
        is_built_in(p.proxy_type)
    } else {
        is_normal(p.proxy_type)
    }
}

/// The first proxy group, the default when no group is given.
pub fn first_group_name(proxies: &Proxies) -> (r: Option<String>)
    ensures
        match r {
            Some(s) => first_name_where(proxies.entries@, |p: Proxy| is_group(p.proxy_type)) == Some(s@),
            None => first_name_where(proxies.entries@, |p: Proxy| is_group(p.proxy_type)) is None,
        },
{
    let ghost pred = |p: Proxy| is_group(p.proxy_type);
    match find_first(&proxies.entries, true, false) {
        Some(i) => {
            proof {
                assert(first_where(proxies.entries@, pred, i as int));
                lemma_first_where_unique(proxies.entries@, pred, i as int);
            }
            Some(proxies.entries[i].0.clone())
        },
        None => {
            assert(!exists|i: int| first_where(proxies.entries@, pred, i));
            None
        },
    }
}

/// The default proxy when none is given: the first normal proxy, else the
/// first built-in one, else the first entry.
pub open spec fn default_proxy_name(entries: Seq<(String, Proxy)>) -> Option<Seq<char>> {
    match first_name_where(entries, |p: Proxy| is_normal(p.proxy_type)) {
        Some(n) => Some(n),
        None => match first_name_where(entries, |p: Proxy| is_built_in(p.proxy_type)) {
            Some(n) => Some(n),
            None => if entries.len() > 0 {
                Some(entries[0].0@)
            } else {
                None
            },
        },
    }
}

/// The first proxy; see [`default_proxy_name`].
pub fn first_proxy_name(proxies: &Proxies) -> (r: Option<String>)
    ensures
        match r {
            Some(s) => default_proxy_name(proxies.entries@) == Some(s@),
            None => default_proxy_name(proxies.entries@) is None,
        },
{
    let ghost normal = |p: Proxy| is_normal(p.proxy_type);
    let ghost built_in = |p: Proxy| is_built_in(p.proxy_type);
    match find_first(&proxies.entries, false, false) {
        Some(i) => {
            proof {
                assert(first_where(proxies.entries@, normal, i as int));
                lemma_first_where_unique(proxies.entries@, normal, i as int);
            }
            return Some(proxies.entries[i].0.clone());
        },
        None => {
            assert(!exists|i: int| first_where(proxies.entries@, normal, i));
        },
    }
    match find_first(&proxies.entries, false, true) {
        Some(i) => {
            proof {
                assert(first_where(proxies.entries@, built_in, i as int));
                lemma_first_where_unique(proxies.entries@, built_in, i as int);
            }
            Some(proxies.entries[i].0.clone())
        },
        None => {
            assert(!exists|i: int| first_where(proxies.entries@, built_in, i));
            if proxies.entries.len() > 0 {
                Some(proxies.entries[0].0.clone())
            } else {
                None
            }
        },
    }
}

/// The member a selector group offers for a switch: the one it uses, else
/// its first member.
pub open spec fn offered_member(p: Proxy) -> Option<Seq<char>> {
    match p.now {
        Some(n) => Some(n@),
        None => match p.all {
            Some(all) => if all@.len() > 0 {
                Some(all@[0]@)
            } else {
                None
            },
            None => None,
        },
    }
}

/// A selector that offers a member.
pub open spec fn offers_member(p: Proxy) -> bool {
    p.proxy_type is Selector && offered_member(p) is Some
}

/// The first selector that offers a member, and that member: the default
/// switch when no group and proxy are given.
pub fn first_selector_member(proxies: &Proxies) -> (r: Option<(String, String)>)
    ensures
        match r {
            Some((g, m)) => exists|i: int|
                first_where(proxies.entries@, |p: Proxy| offers_member(p), i) && g@
                    == proxies.entries@[i].0@ && offered_member(proxies.entries@[i].1) == Some(m@),
            None => forall|j: int|
                0 <= j < proxies.entries@.len() ==> !offers_member(#[trigger] proxies.entries@[j].1),
        },
{
    let mut i: usize = 0;
    while i < proxies.entries.len()
        invariant
            i <= proxies.entries@.len(),
            forall|j: int| 0 <= j < i ==> !offers_member(#[trigger] proxies.entries@[j].1),
        decreases proxies.entries@.len() - i,
    {
        let p = &proxies.entries[i].1;
        if p.proxy_type.is_selector() {
            let member = match &p.now {
                Some(n) => Some(n.clone()),
                None => match &p.all {
                    Some(all) => if all.len() > 0 {
                        Some(all[0].clone())
                    } else {
                        None
                    },
                    None => None,
                },
            };
            if let Some(m) = member {
                proof {
                    assert(offered_member(proxies.entries@[i as int].1) == Some(m@));
                    assert(offers_member(proxies.entries@[i as int].1));
                    assert(first_where(proxies.entries@, |p: Proxy| offers_member(p), i as int));
                }
                return Some((proxies.entries[i].0.clone(), m));
            }
        }
        i = i + 1;
    }
    None
}

} // verus!
