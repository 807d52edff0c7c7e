//! The status page: the figures of the connections, the memory and the
//! traffic, and the versions of the controller and of this client.

use vstd::prelude::*;

use crate::json::JsonValue;
use crate::row_text::{format_memory, info_row, info_row_text, known, memory_shown, rate_of_bytes, size_of_bytes, size_text};
use crate::text::{decimal, usize_to_decimal};
use crate::tui::{Traffic, TuiStates};

verus! {

/// The rows of the status page: the figures, then the versions.
#[derive(Debug)]
pub struct StatusRows {
    pub figures: StatusFigures,
    pub info: Vec<String>,
    pub versions: Vec<String>,
}

/// The upload of all reports together.
pub open spec fn up_sum(ts: Seq<Traffic>) -> int
    decreases ts.len(),
{
    if ts.len() == 0 {
        0
    } else {
        up_sum(ts.drop_last()) + ts.last().up
    }
}

/// The download of all reports together.
pub open spec fn down_sum(ts: Seq<Traffic>) -> int
    decreases ts.len(),
{
    if ts.len() == 0 {
        0
    } else {
        down_sum(ts.drop_last()) + ts.last().down
    }
}

/// `x`, or the largest `u64` when it is larger.
pub open spec fn capped(x: int) -> u64 {
    if x > u64::MAX {
        u64::MAX
    } else {
        x as u64
    }
}

/// The last traffic report; none counts as no traffic.
pub open spec fn last_traffic(ts: Seq<Traffic>) -> Traffic {
    if ts.len() == 0 {
        Traffic { up: 0, down: 0 }
    } else {
        ts.last()
    }
}

/// The figures of the status page.
#[derive(Debug, Clone, Copy, PartialEq, Eq)]
pub struct StatusFigures {
    /// Connections listed.
    pub connections: usize,
    /// The last upload and download rates.
    pub up: u64,
    pub down: u64,
    /// The average rates over the session; none before its first second
    /// is over.
    pub avg_up: Option<u64>,
    pub avg_down: Option<u64>,
    /// The highest rates seen.
    pub max_up: u64,
    pub max_down: u64,
    /// The bytes the connections moved.
    pub total_up: u64,
    pub total_down: u64,
}

/// The figures of the status page of `s`, `elapsed` seconds into the
/// session. The averages divide everything reported (capped at the largest
/// `u64`) by the seconds.
pub open spec fn figures_of(s: TuiStates, elapsed: u64) -> StatusFigures {
    let last = last_traffic(s.traffics@);
    StatusFigures {
        connections: s.con_state.items@.len() as usize,
        up: last.up,
        down: last.down,
        avg_up: if elapsed == 0 {
            None
        } else {
            Some((capped(up_sum(s.traffics@)) / elapsed) as u64)
        },
        avg_down: if elapsed == 0 {
            None
        } else {
            Some((capped(down_sum(s.traffics@)) / elapsed) as u64)
        },
        max_up: s.max_traffic.up,
        max_down: s.max_traffic.down,
        total_up: s.con_size.0,
        total_down: s.con_size.1,
    }
}

/// `row` shows `bytes` per second under `title`.
pub open spec fn rate_row(title: Seq<char>, bytes: u64, row: Seq<char>) -> bool {
    exists|t: Seq<char>| #[trigger] size_text(bytes, t) && row == info_row_text(title, t + "/s"@)
}

/// `row` shows `bytes` under `title`.
pub open spec fn size_row(title: Seq<char>, bytes: u64, row: Seq<char>) -> bool {
    exists|t: Seq<char>| #[trigger] size_text(bytes, t) && row == info_row_text(title, t)
}

/// The figure rows of the status page for the figures `f` and the memory
/// report `memory`: the number of connections, the memory report, the last
/// upload and download rates, their averages over the session (`?` while
/// there is none; the download average is written without `/s`), their
/// highest rates and the totals of the connections.
pub open spec fn info_rows_shown(f: StatusFigures, memory: Option<JsonValue>, r: Seq<Seq<char>>) -> bool {
    &&& r.len() == 10
    &&& r[0] == info_row_text("⇉ Connections"@, decimal(f.connections as nat))
    &&& exists|m: Seq<char>| #[trigger] memory_shown(memory, m) && r[1] == info_row_text("◎ Memory"@, m)
    &&& rate_row("▲ Upload"@, f.up, r[2])
    &&& rate_row("▼ Download"@, f.down, r[3])
    &&& match f.avg_up {
        Some(a) => rate_row("▲ Avg."@, a, r[4]),
        None => r[4] == info_row_text("▲ Avg."@, "?"@),
    }
    &&& match f.avg_down {
        Some(a) => size_row("▼ Avg."@, a, r[5]),
        None => r[5] == info_row_text("▼ Avg."@, "?"@),
    }
    &&& rate_row("▲ Max"@, f.max_up, r[6])
    &&& rate_row("▼ Max"@, f.max_down, r[7])
    &&& size_row("▲ Total"@, f.total_up, r[8])
    &&& size_row("▼ Total"@, f.total_down, r[9])
}

/// The version rows: the controller's version (`?` while unknown) and
/// `own_version`, this client's.
pub open spec fn version_rows_shown(s: TuiStates, own_version: Seq<char>, r: Seq<Seq<char>>) -> bool {
    &&& r.len() == 2
    &&& r[0] == info_row_text(
        "Clash Ver."@,
        match s.version {
            Some(v) => v@,
            None => "?"@,
        },
    )
    &&& r[1] == info_row_text("Mihomoctl Ver."@, own_version)
}

/// The characters of each row.
pub open spec fn row_texts(v: Seq<String>) -> Seq<Seq<char>> {
    v.map_values(|s: String| s@)
}

/// Appends the row of `bytes` per second under `title`.
fn push_rate(out: &mut Vec<String>, title: &str, bytes: u64)
    ensures
        final(out)@.len() == old(out)@.len() + 1,
        forall|i: int| 0 <= i < old(out)@.len() ==> final(out)@[i] == old(out)@[i],
        rate_row(title@, bytes, final(out)@.last()@),
{
    let t = rate_of_bytes(bytes);
    let row = info_row(title, t.as_str());
    proof {
        let w = choose|w: Seq<char>| #[trigger] size_text(bytes, w) && t@ == w + "/s"@;
        assert(size_text(bytes, w) && row@ == info_row_text(title@, w + "/s"@));
    }
    out.push(row);
}

/// Appends the row of `bytes` under `title`.
fn push_size(out: &mut Vec<String>, title: &str, bytes: u64)
    ensures
        final(out)@.len() == old(out)@.len() + 1,
        forall|i: int| 0 <= i < old(out)@.len() ==> final(out)@[i] == old(out)@[i],
        size_row(title@, bytes, final(out)@.last()@),
{
    let t = size_of_bytes(bytes);
    let row = info_row(title, t.as_str());
    assert(size_text(bytes, t@) && row@ == info_row_text(title@, t@));
    out.push(row);
}

/// The figures of the status page of `state`, `elapsed_secs` seconds into
/// the session; see [`figures_of`].
pub fn status_figures(state: &TuiStates, elapsed_secs: u64) -> (f: StatusFigures)
    ensures
        f == figures_of(*state, elapsed_secs),
{
    let ts = &state.traffics;
    let mut up_all: u64 = 0;
    let mut down_all: u64 = 0;
    let mut i: usize = 0;
    while i < ts.len()
        invariant
            i <= ts@.len(),
            up_all == capped(up_sum(ts@.take(i as int))),
            down_all == capped(down_sum(ts@.take(i as int))),
        decreases ts@.len() - i,
    {
        proof {
            assert(ts@.take(i + 1).drop_last() =~= ts@.take(i as int));
            lemma_sums_nonnegative(ts@.take(i as int));
        }
        up_all = up_all.saturating_add(ts[i].up);
        down_all = down_all.saturating_add(ts[i].down);
        i = i + 1;
    }
    assert(ts@.take(i as int) =~= ts@);
    let last = if ts.len() > 0 {
        ts[ts.len() - 1]
    } else {
        Traffic { up: 0, down: 0 }
    };
    let (avg_up, avg_down) = if elapsed_secs == 0 {
        (None, None)
    } else {
        (Some(up_all / elapsed_secs), Some(down_all / elapsed_secs))
    };
    StatusFigures {
        connections: state.con_state.items.len(),
        up: last.up,
        down: last.down,
        avg_up,
        avg_down,
        max_up: state.max_traffic.up,
        max_down: state.max_traffic.down,
        total_up: state.con_size.0,
        total_down: state.con_size.1,
    }
}

/// The rows of the status page of `state`, `elapsed_secs` seconds into the
/// session, with `own_version` as this client's version: the figures of
/// [`status_figures`], each written once.
pub fn status_rows(state: &TuiStates, elapsed_secs: u64, own_version: &str) -> (r: StatusRows)
    ensures
        r.figures == figures_of(*state, elapsed_secs),
        info_rows_shown(r.figures, state.memory, row_texts(r.info@)),
        version_rows_shown(*state, own_version@, row_texts(r.versions@)),
{
    let f = status_figures(state, elapsed_secs);
    let mut info: Vec<String> = Vec::new();
    info.push(info_row("⇉ Connections", usize_to_decimal(f.connections).as_str()));
    let mref = state.memory.as_ref();
    let memory = format_memory(mref);
    let memory_row = info_row("◎ Memory", memory.as_str());
    proof {
        assert(known(mref) == state.memory);
    }
    info.push(memory_row);
    push_rate(&mut info, "▲ Upload", f.up);
    push_rate(&mut info, "▼ Download", f.down);
    match f.avg_up {
        Some(a) => push_rate(&mut info, "▲ Avg.", a),
        None => info.push(info_row("▲ Avg.", "?")),
    }
    match f.avg_down {
        Some(a) => push_size(&mut info, "▼ Avg.", a),
        None => info.push(info_row("▼ Avg.", "?")),
    }
    push_rate(&mut info, "▲ Max", f.max_up);
    push_rate(&mut info, "▼ Max", f.max_down);
    push_size(&mut info, "▲ Total", f.total_up);
    push_size(&mut info, "▼ Total", f.total_down);
    let mut versions: Vec<String> = Vec::new();
    let clash_version = match &state.version {
        Some(v) => v.as_str(),
        None => "?",
    };
    versions.push(info_row("Clash Ver.", clash_version));
    versions.push(info_row("Mihomoctl Ver.", own_version));
    StatusRows { figures: f, info, versions }
}

proof fn lemma_sums_nonnegative(ts: Seq<Traffic>)
    ensures
        up_sum(ts) >= 0,
        down_sum(ts) >= 0,
    decreases ts.len(),
{
    if ts.len() > 0 {
        lemma_sums_nonnegative(ts.drop_last());
    }
}

} // verus!
