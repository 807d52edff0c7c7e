//! The text of the rows that pages list: connections, rules, the status
//! figures and the memory report, with byte counts as `bytesize` writes
//! them.

use vstd::prelude::*;

use crate::config_page::{joined, pad_end, pad_start, spaces};
use crate::json::{json_get, json_u64, JsonValue};
use crate::logs::{compact_json, serde_compact};
use crate::model::{rule_type_name, ConnectionWithSpeed, Rule};
use crate::text::{concat, decimal, push_char};

verus! {

/// The number of bytes of `c` in UTF-8; `char::len_utf8`.
pub open spec fn char_utf8_len(c: char) -> nat {
    if (c as u32) < 0x80 {
        1
    } else if (c as u32) < 0x800 {
        2
    } else if (c as u32) < 0x10000 {
        3
    } else {
        4
    }
}

/// The number of bytes of `s` in UTF-8; `str::len`.
pub open spec fn utf8_len(s: Seq<char>) -> nat
    decreases s.len(),
{
    if s.len() == 0 {
        0
    } else {
        utf8_len(s.drop_last()) + char_utf8_len(s.last())
    }
}

/// `n` copies of `c`.
pub open spec fn repeated(c: char, n: nat) -> Seq<char> {
    Seq::new(n, |i: int| c)
}

/// A prefix of a text has no more bytes than the text.
pub(crate) proof fn lemma_utf8_len_prefix(s: Seq<char>, i: int)
    requires
        0 <= i <= s.len(),
    ensures
        utf8_len(s.take(i)) <= utf8_len(s),
    decreases s.len() - i,
{
    if i < s.len() {
        lemma_utf8_len_prefix(s, i + 1);
        assert(s.take(i + 1).drop_last() =~= s.take(i));
    } else {
        assert(s.take(i) =~= s);
    }
}

/// The number of bytes of `s` in UTF-8, or `cap` when it has that many or
/// more.
pub fn utf8_length_capped(s: &str, cap: usize) -> (r: usize)
    requires
        cap <= 1024,
    ensures
        r == (if utf8_len(s@) < cap { utf8_len(s@) } else { cap as nat }),
{
    let n = s.unicode_len();
    let mut total: usize = 0;
    let mut i: usize = 0;
    while i < n && total < cap
        invariant
            n == s@.len(),
            cap <= 1024,
            i <= n,
            total == utf8_len(s@.take(i as int)),
        decreases n - i,
    {
        let c = s.get_char(i);
        let w: usize = if (c as u32) < 0x80 {
            1
        } else if (c as u32) < 0x800 {
            2
        } else if (c as u32) < 0x10000 {
            3
        } else {
            4
        };
        proof {
            assert(s@.take(i + 1).drop_last() =~= s@.take(i as int));
            assert(s@.take(i + 1).last() == c);
        }
        total = total + w;
        i = i + 1;
    }
    proof {
        lemma_utf8_len_prefix(s@, i as int);
        if i == n {
            assert(s@.take(n as int) =~= s@);
        }
    }
    if total < cap {
        total
    } else {
        cap
    }
}

/// `s` followed by `n` copies of `c`.
fn push_repeated(s: &mut String, c: char, n: usize)
    ensures
        final(s)@ == old(s)@ + repeated(c, n as nat),
{
    let mut i: usize = 0;
    while i < n
        invariant
            i <= n,
            s@ == old(s)@ + repeated(c, i as nat),
        decreases n - i,
    {
        push_char(s, c);
        assert(s@ =~= old(s)@ + repeated(c, (i + 1) as nat));
        i = i + 1;
    }
}

/// `s` followed by spaces up to `n` characters; `format!("{:n}", s)`.
pub fn pad_right(s: &str, n: usize) -> (r: String)
    ensures
        r@ == pad_end(s@, n as nat),
{
    let mut r = s.to_owned();
    let len = s.unicode_len();
    if len < n {
        push_repeated(&mut r, ' ', n - len);
        assert(repeated(' ', (n - len) as nat) =~= spaces((n - len) as nat));
    }
    r
}

/// Spaces up to `n` characters followed by `s`; `format!("{:>n}", s)`.
pub fn pad_left(s: &str, n: usize) -> (r: String)
    ensures
        r@ == pad_start(s@, n as nat),
{
    let len = s.unicode_len();
    let mut r = String::new();
    if len < n {
        push_repeated(&mut r, ' ', n - len);
        assert(repeated(' ', (n - len) as nat) =~= spaces((n - len) as nat));
    }
    r.append(s);
    proof {
        if len >= n {
            assert(r@ =~= s@);
        }
    }
    r
}

/// A row of the status page: the title in a column of 13 and the figure
/// right-aligned in a column of 18, between single spaces.
pub open spec fn info_row_text(title: Seq<char>, content: Seq<char>) -> Seq<char> {
    " "@ + pad_end(title, 13) + pad_start(content, 18) + " "@
}

/// A row of the status page; see [`info_row_text`].
pub fn info_row(title: &str, content: &str) -> (r: String)
    ensures
        r@ == info_row_text(title@, content@),
{
    let mut r = " ".to_owned();
    r.append(pad_right(title, 13).as_str());
    r.append(pad_left(content, 18).as_str());
    r.append(" ");
    r
}

/// The pieces joined by `sep`; `slice::join`.
pub fn join_with(parts: &Vec<String>, sep: &str) -> (r: String)
    ensures
        r@ == joined(parts@.map_values(|p: String| p@), sep@),
{
    let ghost v = parts@.map_values(|p: String| p@);
    let n = parts.len();
    if n == 0 {
        return String::new();
    }
    let mut r = String::new();
    let mut i: usize = n;
    while i > 0
        invariant
            0 <= i <= n,
            n == parts@.len(),
            v == parts@.map_values(|p: String| p@),
            i < n ==> r@ == joined(v.skip(i as int), sep@),
            i == n ==> r@ == Seq::<char>::empty(),
        decreases i,
    {
        let k = i - 1;
        let piece = parts[k].as_str();
        assert(v.skip(k as int)[0] == piece@);
        assert(v.skip(k as int).drop_first() =~= v.skip(i as int));
        if i == n {
            r = piece.to_owned();
            assert(v.skip(k as int).len() == 1);
        } else {
            let with_sep = concat(piece, sep);
            r = concat(with_sep.as_str(), r.as_str());
        }
        i = k;
    }
    assert(v.skip(0) =~= v);
    r
}

/// The letter of a unit of `bytesize` in units of 1024: kilo to exa.
pub open spec fn unit_letter(c: char) -> bool {
    c == 'k' || c == 'M' || c == 'G' || c == 'T' || c == 'P' || c == 'E'
}

/// A figure with one decimal and a unit of 1024s: digits, a point, one
/// digit, a space, the unit's letter and `iB`.
pub open spec fn scaled_text(t: Seq<char>) -> bool {
    let n = t.len() as int;
    &&& n >= 7
    &&& forall|k: int| 0 <= k < n - 6 ==> '0' <= #[trigger] t[k] && t[k] <= '9'
    &&& t[n - 6] == '.'
    &&& '0' <= t[n - 5] && t[n - 5] <= '9'
    &&& t[n - 4] == ' '
    &&& unit_letter(t[n - 3])
    &&& t[n - 2] == 'i'
    &&& t[n - 1] == 'B'
}

/// What `bytesize` may write for a byte count in units of 1024: below 1024
/// bytes, the count and ` B`; from 1024 on, a figure with one decimal and a
/// unit of 1024s.
pub open spec fn size_text(bytes: u64, t: Seq<char>) -> bool {
    if bytes < 1024 {
        t == decimal(bytes as nat) + " B"@
    } else {
        scaled_text(t)
    }
}

/// `ByteSize(bytes).to_string_as(true)` of `bytesize`: below 1024 bytes the
/// count and ` B`; from 1024 on, the count divided by a power of 1024,
/// written with one decimal, a space and the unit (`kiB` to `EiB`). Which
/// power, and so the figure, is chosen with floating-point logarithms and
/// is left unstated here.
#[verifier::external_body]
fn byte_size(bytes: u64) -> (r: String)
    ensures
        size_text(bytes, r@),
{
    bytesize::ByteSize(bytes).to_string_as(true)
}

/// A byte count as the pages show it.
pub fn size_of_bytes(bytes: u64) -> (r: String)
    ensures
        size_text(bytes, r@),
{
    byte_size(bytes)
}

/// A byte rate as the pages show it: the count and `/s`.
pub fn rate_of_bytes(bytes: u64) -> (r: String)
    ensures
        exists|t: Seq<char>| #[trigger] size_text(bytes, t) && r@ == t + "/s"@,
{
    let t = byte_size(bytes);
    let r = concat(t.as_str(), "/s");
    assert(size_text(bytes, t@));
    r
}

/// The line of a rule: its type in a column of 16, the payload (`*` when
/// it is empty), a dashed leader that fills up to 35 bytes of payload and
/// two more, and the proxy.
pub open spec fn rule_text(rule: Rule) -> Seq<char> {
    let payload = if rule.payload@.len() == 0 {
        "*"@
    } else {
        rule.payload@
    };
    let room: int = 35 - utf8_len(payload);
    let dash = repeated('\u{2500}', ((if room > 0 { room } else { 0 }) + 2) as nat);
    pad_end(rule_type_name(rule.rule_type), 16) + payload + " "@ + dash + " "@ + rule.proxy@
}

/// The line of a rule; see [`rule_text`].
pub fn rule_line(rule: &Rule) -> (r: String)
    ensures
        r@ == rule_text(*rule),
{
    let payload: &str = if rule.payload.unicode_len() == 0 {
        "*"
    } else {
        rule.payload.as_str()
    };
    let len = utf8_length_capped(payload, 35);
    let room: usize = if len < 35 {
        35 - len
    } else {
        0
    };
    let mut r = pad_right(rule.rule_type.name(), 16);
    r.append(payload);
    r.append(" ");
    push_repeated(&mut r, '\u{2500}', room + 2);
    r.append(" ");
    r.append(rule.proxy.as_str());
    r
}

/// The download or upload rate of a connection, nothing when none is known.
pub open spec fn rate_or_zero(r: Option<u64>) -> u64 {
    match r {
        Some(v) => v,
        None => 0,
    }
}

/// The line of a connection, given the texts of its downloaded bytes, its
/// download rate, its uploaded bytes and its upload rate, and of the time
/// it has been open: its host and port in a column of 45, the byte figures
/// (rates with `/s`) in columns of 12, the time in a column of 10, the rule
/// type in a column of 15, the source address, a dashed leader of
/// `44` bytes less the two addresses (one at least) and the destination
/// address (`?` for an unknown one, with the source port), and the chain
/// joined by ` - `, each column behind a symbol.
pub open spec fn connection_text(
    c: ConnectionWithSpeed,
    dl: Seq<char>,
    dl_speed: Seq<char>,
    up: Seq<char>,
    up_speed: Seq<char>,
    time: Seq<char>,
) -> Seq<char> {
    let meta = c.connection.metadata;
    let host = meta.host@ + ":"@ + meta.destination_port@;
    let from = meta.source_ip@ + ":"@ + meta.source_port@ + " "@;
    let to_ip = if meta.destination_ip@.len() == 0 {
        "?"@
    } else {
        meta.destination_ip@
    };
    let to = " "@ + to_ip + ":"@ + meta.source_port@;
    let room: int = 44 - (utf8_len(from) + utf8_len(to));
    let dash = repeated('\u{2500}', (if room > 1 { room } else { 1 }) as nat);
    pad_end(host, 45) + " \u{25bc}  "@ + pad_end(dl, 12) + " \u{21ca}  "@ + pad_end(dl_speed + "/s"@, 12)
        + " \u{25b2}  "@ + pad_end(up, 12) + " \u{21c8}  "@ + pad_end(up_speed + "/s"@, 12)
        + " \u{23f2}  "@ + pad_end(time, 10) + " \u{2724}  "@ + pad_end(
        rule_type_name(c.connection.rule),
        15,
    ) + " \u{21c4}  "@ + from + dash + to + "   \u{27f4}  "@ + joined(
        c.connection.chains@.map_values(|p: String| p@),
        " - "@,
    )
}

/// The source and destination addresses of a connection line and the
/// dashes between them; see [`connection_text`].
fn address_part(c: &ConnectionWithSpeed) -> (r: String)
    ensures
        r@ == ({
            let meta = c.connection.metadata;
            let from = meta.source_ip@ + ":"@ + meta.source_port@ + " "@;
            let to_ip = if meta.destination_ip@.len() == 0 {
                "?"@
            } else {
                meta.destination_ip@
            };
            let to = " "@ + to_ip + ":"@ + meta.source_port@;
            let room: int = 44 - (utf8_len(from) + utf8_len(to));
            from + repeated('\u{2500}', (if room > 1 { room } else { 1 }) as nat) + to
        }),
{
    let meta = &c.connection.metadata;
    let mut from = meta.source_ip.clone();
    from.append(":");
    from.append(meta.source_port.as_str());
    from.append(" ");
    let to_ip: &str = if meta.destination_ip.unicode_len() == 0 {
        "?"
    } else {
        meta.destination_ip.as_str()
    };
    let mut to = " ".to_owned();
    to.append(to_ip);
    to.append(":");
    to.append(meta.source_port.as_str());
    let a = utf8_length_capped(from.as_str(), 44);
    let b = utf8_length_capped(to.as_str(), 44);
    let count: usize = if a + b >= 43 {
        1
    } else {
        44 - a - b
    };
    let mut r = from;
    push_repeated(&mut r, '\u{2500}', count);
    r.append(to.as_str());
    r
}

/// The line of a connection given the texts of its figures; see
/// [`connection_text`].
pub fn connection_line_of(
    c: &ConnectionWithSpeed,
    dl: &str,
    dl_speed: &str,
    up: &str,
    up_speed: &str,
    time: &str,
) -> (r: String)
    ensures
        r@ == connection_text(*c, dl@, dl_speed@, up@, up_speed@, time@),
{
    let meta = &c.connection.metadata;
    let mut host = meta.host.clone();
    host.append(":");
    host.append(meta.destination_port.as_str());
    let dl_rate = concat(dl_speed, "/s");
    let up_rate = concat(up_speed, "/s");
    let mut r = pad_right(host.as_str(), 45);
    r.append(" \u{25bc}  ");
    r.append(pad_right(dl, 12).as_str());
    r.append(" \u{21ca}  ");
    r.append(pad_right(dl_rate.as_str(), 12).as_str());
    r.append(" \u{25b2}  ");
    r.append(pad_right(up, 12).as_str());
    r.append(" \u{21c8}  ");
    r.append(pad_right(up_rate.as_str(), 12).as_str());
    r.append(" \u{23f2}  ");
    r.append(pad_right(time, 10).as_str());
    r.append(" \u{2724}  ");
    r.append(pad_right(c.connection.rule.name(), 15).as_str());
    r.append(" \u{21c4}  ");
    r.append(address_part(c).as_str());
    r.append("   \u{27f4}  ");
    r.append(join_with(&c.connection.chains, " - ").as_str());
    r
}

/// The byte figures of a connection line: the bytes downloaded, the
/// download rate, the bytes uploaded and the upload rate (a rate not yet
/// measured counts as zero).
pub open spec fn connection_figures_of(c: ConnectionWithSpeed) -> (u64, u64, u64, u64) {
    (c.connection.download, rate_or_zero(c.download), c.connection.upload, rate_or_zero(c.upload))
}

/// The byte figures of a connection line; see [`connection_figures_of`].
pub fn connection_figures(c: &ConnectionWithSpeed) -> (r: (u64, u64, u64, u64))
    ensures
        r == connection_figures_of(*c),
{
    let dl_speed = match c.download {
        Some(v) => v,
        None => 0,
    };
    let up_speed = match c.upload {
        Some(v) => v,
        None => 0,
    };
    (c.connection.download, dl_speed, c.connection.upload, up_speed)
}

/// The line of a connection with its byte figures as `bytesize` writes
/// them, given the time it has been open; see [`connection_text`].
pub fn connection_line(c: &ConnectionWithSpeed, time: &str) -> (r: String)
    ensures
        exists|dl: Seq<char>, dl_speed: Seq<char>, up: Seq<char>, up_speed: Seq<char>|
            #![trigger connection_text(*c, dl, dl_speed, up, up_speed, time@)]
            size_text(connection_figures_of(*c).0, dl) && size_text(connection_figures_of(*c).1, dl_speed)
                && size_text(connection_figures_of(*c).2, up) && size_text(connection_figures_of(*c).3, up_speed) && r@
                == connection_text(*c, dl, dl_speed, up, up_speed, time@),
{
    let (dl_bytes, dl_rate, up_bytes, up_rate) = connection_figures(c);
    let dl = byte_size(dl_bytes);
    let dl_speed = byte_size(dl_rate);
    let up = byte_size(up_bytes);
    let up_speed = byte_size(up_rate);
    let r = connection_line_of(c, dl.as_str(), dl_speed.as_str(), up.as_str(), up_speed.as_str(), time);
    assert(r@ == connection_text(*c, dl@, dl_speed@, up@, up_speed@, time@));
    r
}

/// The whole number that the member `a` of `m` holds, or the member `b`
/// when `m` has no member `a`.
pub open spec fn member_u64(m: JsonValue, a: Seq<char>, b: Seq<char>) -> Option<u64> {
    let member = match json_get(m, a) {
        Some(x) => Some(x),
        None => json_get(m, b),
    };
    match member {
        Some(x) => json_u64(x),
        None => None,
    }
}

/// The memory in use that a report of the controller gives (`inuse`, or
/// `inUse`).
pub open spec fn memory_in_use(m: JsonValue) -> Option<u64> {
    member_u64(m, "inuse"@, "inUse"@)
}

/// The memory limit that a report of the controller gives (`oslimit`, or
/// `osLimit`).
pub open spec fn memory_limit(m: JsonValue) -> Option<u64> {
    member_u64(m, "oslimit"@, "osLimit"@)
}

/// What a memory report gives the status page.
#[derive(Debug, Clone, Copy, PartialEq, Eq)]
pub enum MemoryFigures {
    /// No report yet.
    Unknown,
    /// The memory in use, and the limit when it is known and above zero.
    InUse { in_use: u64, limit: Option<u64> },
    /// A report without a figure of memory in use; it is shown as it came.
    Unread,
}

/// The figures of the memory report `memory`.
pub open spec fn memory_figures_of(memory: Option<JsonValue>) -> MemoryFigures {
    match memory {
        None => MemoryFigures::Unknown,
        Some(m) => match memory_in_use(m) {
            Some(i) => MemoryFigures::InUse {
                in_use: i,
                limit: match memory_limit(m) {
                    Some(o) => if o > 0 {
                        Some(o)
                    } else {
                        None
                    },
                    None => None,
                },
            },
            None => MemoryFigures::Unread,
        },
    }
}

/// `t` is what the status page may show for the memory report `memory`:
/// `?` before any report; the memory in use and the limit around ` / `, or
/// the memory in use alone, each as `bytesize` writes it; the report as
/// compact JSON when it gives no memory in use.
pub open spec fn memory_shown(memory: Option<JsonValue>, t: Seq<char>) -> bool {
    match memory_figures_of(memory) {
        MemoryFigures::Unknown => t == "?"@,
        MemoryFigures::InUse { in_use, limit } => match limit {
            Some(l) => exists|a: Seq<char>, b: Seq<char>|
                #![trigger size_text(in_use, a), size_text(l, b)]
                size_text(in_use, a) && size_text(l, b) && t == a + " / "@ + b,
            None => exists|a: Seq<char>| #[trigger] size_text(in_use, a) && t == a,
        },
        MemoryFigures::Unread => t == serde_compact(memory->0),
    }
}

/// The member `a` of `m`, or `b` when there is no member `a`, as a whole
/// number; see [`member_u64`].
fn member_number(m: &JsonValue, a: &str, b: &str) -> (r: Option<u64>)
    ensures
        r == member_u64(*m, a@, b@),
{
    let member = match m.get(a) {
        Some(x) => Some(x),
        None => m.get(b),
    };
    match member {
        Some(x) => x.as_u64(),
        None => None,
    }
}

/// The report a reference points to, if any.
pub open spec fn known(memory: Option<&JsonValue>) -> Option<JsonValue> {
    match memory {
        Some(m) => Some(*m),
        None => None,
    }
}

/// The figures of a memory report; see [`memory_figures_of`].
pub fn memory_figures(memory: Option<&JsonValue>) -> (r: MemoryFigures)
    ensures
        r == memory_figures_of(known(memory)),
{
    match memory {
        None => MemoryFigures::Unknown,
        Some(m) => match member_number(m, "inuse", "inUse") {
            Some(i) => {
                let limit = match member_number(m, "oslimit", "osLimit") {
                    Some(o) => if o > 0 {
                        Some(o)
                    } else {
                        None
                    },
                    None => None,
                };
                MemoryFigures::InUse { in_use: i, limit }
            },
            None => MemoryFigures::Unread,
        },
    }
}

/// What the status page shows for the last memory report; see
/// [`memory_shown`].
pub fn format_memory(memory: Option<&JsonValue>) -> (r: String)
    ensures
        memory_shown(known(memory), r@),
{
    match memory_figures(memory) {
        MemoryFigures::Unknown => "?".to_owned(),
        MemoryFigures::InUse { in_use, limit } => {
            let a = byte_size(in_use);
            match limit {
                Some(l) => {
                    let b = byte_size(l);
                    let with_sep = concat(a.as_str(), " / ");
                    let r = concat(with_sep.as_str(), b.as_str());
                    assert(size_text(in_use, a@) && size_text(l, b@) && r@ == a@ + " / "@ + b@);
                    r
                },
                None => {
                    assert(size_text(in_use, a@));
                    a
                },
            }
        },
        MemoryFigures::Unread => match memory {
            Some(m) => compact_json(m),
            None => "?".to_owned(),
        },
    }
}

} // verus!
