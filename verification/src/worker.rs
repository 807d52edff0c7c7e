//! What the background worker decides around its requests to the
//! controller: which requests a controller of a kind refuses up front, what
//! the interface is told about the outcome of an action, and which data is
//! fetched again afterwards.

use vstd::prelude::*;

use crate::api::{op_title, supported, ApiOperation};
use crate::event::{same_action, Action};
use crate::kind::ControllerKind;
use crate::text::{concat, owned, push_char};
use crate::proxy::{first_occurrences, views};
use crate::tui::{Event, UpdateEvent};

verus! {

/// Data the worker fetches again after an action.
#[derive(Debug, Clone, Copy, PartialEq, Eq, Structural)]
pub enum Refresh {
    Proxies,
    Configs,
    Rules,
    Connections,
}

/// The answer when a controller of `kind` cannot run `op`.
pub open spec fn unsupported_text(op: ApiOperation, kind: ControllerKind) -> Option<Seq<char>> {
    if supported(op, kind) {
        None
    } else {
        Some("operation requires mihomo controller: "@ + op_title(op))
    }
}

/// The answer given instead of sending `op` to a controller of `kind` that
/// does not offer it; none when the request can go out.
pub fn unsupported_message(op: ApiOperation, kind: ControllerKind) -> (r: Option<String>)
    ensures
        match unsupported_text(op, kind) {
            Some(t) => r matches Some(s) && s@ == t,
            None => r is None,
        },
{
    if op.supports(kind) {
        None
    } else {
        Some(concat("operation requires mihomo controller: ", op.title()))
    }
}

/// The refusal of a geo database update by a controller of `kind`: only a
/// Mihomo controller offers it.
pub fn geo_update_refusal(kind: ControllerKind) -> (r: Option<String>)
    ensures
        kind == ControllerKind::Mihomo ==> r is None,
        kind == ControllerKind::Clash ==> (r matches Some(s) && s@
            == "geo update requires a mihomo controller"@),
{
    match kind {
        ControllerKind::Mihomo => None,
        ControllerKind::Clash => Some(owned("geo update requires a mihomo controller")),
    }
}

/// The request of `action` that a controller of `kind` cannot serve, with
/// the reason: a geo database update asked of a plain Clash controller.
pub open spec fn refused_up_front(action: Action, kind: ControllerKind) -> Option<Seq<char>> {
    if action is UpdateGeo && kind == ControllerKind::Clash {
        Some("geo update requires a mihomo controller"@)
    } else {
        None
    }
}

/// What the worker does first with `action`, before any request: the
/// action echoed to the interface, and the reason when the request is
/// refused up front (see [`refused_up_front`]); then no request is made and
/// the refusal is the error reported for it (see [`report_action`]).
pub fn action_start(action: &Action, kind: ControllerKind) -> (r: (Event, Option<String>))
    ensures
        r.0 matches Event::Action(a) && same_action(a, *action),
        match refused_up_front(*action, kind) {
            Some(t) => r.1 matches Some(s) && s@ == t,
            None => r.1 is None,
        },
{
    let echo = Event::Action(action.duplicate());
    let refusal = match action {
        Action::UpdateGeo => geo_update_refusal(kind),
        _ => None,
    };
    (echo, refusal)
}

/// What the interface is told after the request of `action` ended with
/// `error` (none on success), and what is fetched again afterwards. The
/// outcome of fetching the configuration and of an API call carry data and
/// are reported by the caller.
pub open spec fn action_report(action: Action, error: Option<String>) -> Option<(UpdateEvent, Seq<Refresh>)> {
    match action {
        Action::TestLatency { .. } => Some((UpdateEvent::ProxyTestLatencyDone, seq![Refresh::Proxies])),
        Action::ApplySelection { group, proxy } => Some((
            UpdateEvent::ProxySelectionResult { group, proxy, error },
            seq![Refresh::Proxies],
        )),
        Action::SetMode { mode } => Some((UpdateEvent::ModeSwitchResult { mode, error }, seq![Refresh::Configs])),
        Action::ReloadConfigs => Some((
            UpdateEvent::ConfigReloadResult { error },
            seq![Refresh::Configs, Refresh::Proxies, Refresh::Rules],
        )),
        Action::UpdateGeo => Some((UpdateEvent::GeoUpdateResult { error }, seq![])),
        Action::CloseConnection { .. } => Some((
            UpdateEvent::ConnectionCloseResult { all: false, error },
            seq![Refresh::Connections],
        )),
        Action::CloseAllConnections => Some((
            UpdateEvent::ConnectionCloseResult { all: true, error },
            seq![Refresh::Connections],
        )),
        Action::FetchConfigs => None,
        Action::InvokeApi { .. } => None,
    }
}

/// The report of `action` ended with `error`, as [`action_report`] says.
pub fn report_action(action: Action, error: Option<String>) -> (r: Option<(UpdateEvent, Vec<Refresh>)>)
    ensures
        match action_report(action, error) {
            Some((ev, refresh)) => r matches Some(p) && p.0 == ev && p.1@ == refresh,
            None => r is None,
        },
{
    match action {
        Action::TestLatency { .. } => Some((UpdateEvent::ProxyTestLatencyDone, vec![Refresh::Proxies])),
        Action::ApplySelection { group, proxy } => Some((
            UpdateEvent::ProxySelectionResult { group, proxy, error },
            vec![Refresh::Proxies],
        )),
        Action::SetMode { mode } => Some((UpdateEvent::ModeSwitchResult { mode, error }, vec![Refresh::Configs])),
        Action::ReloadConfigs => Some((
            UpdateEvent::ConfigReloadResult { error },
            vec![Refresh::Configs, Refresh::Proxies, Refresh::Rules],
        )),
        Action::UpdateGeo => Some((UpdateEvent::GeoUpdateResult { error }, vec![])),
        Action::CloseConnection { .. } => Some((
            UpdateEvent::ConnectionCloseResult { all: false, error },
            vec![Refresh::Connections],
        )),
        Action::CloseAllConnections => Some((
            UpdateEvent::ConnectionCloseResult { all: true, error },
            vec![Refresh::Connections],
        )),
        Action::FetchConfigs => None,
        Action::InvokeApi { .. } => None,
    }
}

/// How a call that needs a group and a member is made from the values typed
/// in: with both, refused when only one is given, or with the first ones
/// the controller reports when none is given.
#[derive(Debug, Clone, PartialEq, Eq)]
pub enum PairChoice {
    Given(String, String),
    Refused(String),
    Lookup,
}

/// The characters of a [`PairChoice`].
pub open spec fn pair_choice_view(c: PairChoice) -> (int, Seq<char>, Seq<char>) {
    match c {
        PairChoice::Given(g, m) => (0, g@, m@),
        PairChoice::Refused(e) => (1, e@, Seq::empty()),
        PairChoice::Lookup => (2, Seq::empty(), Seq::empty()),
    }
}

/// How to select a member of a group from the typed values: both typed,
/// one of them missing (refused, naming the missing one), or neither
/// (looked up).
pub fn selector_member_choice(group: &str, member: &str) -> (r: PairChoice)
    ensures
        match (crate::path::opt_str_spec(group@), crate::path::opt_str_spec(member@)) {
            (Some(g), Some(m)) => pair_choice_view(r) == (0int, g, m),
            (Some(_), None) => pair_choice_view(r) == (1int, "ERR proxy name is required with a manual group"@, Seq::<char>::empty()),
            (None, Some(_)) => pair_choice_view(r) == (1int, "ERR group name is required with a manual proxy"@, Seq::<char>::empty()),
            (None, None) => r is Lookup,
        },
{
    match (crate::path::opt_str(group), crate::path::opt_str(member)) {
        (Some(g), Some(m)) => PairChoice::Given(owned(g), owned(m)),
        (Some(_), None) => PairChoice::Refused(owned("ERR proxy name is required with a manual group")),
        (None, Some(_)) => PairChoice::Refused(owned("ERR group name is required with a manual proxy")),
        (None, None) => PairChoice::Lookup,
    }
}

/// How often `x` occurs in `s`.
pub open spec fn count_in(s: Seq<Seq<char>>, x: Seq<char>) -> nat
    decreases s.len(),
{
    if s.len() == 0 {
        0
    } else {
        count_in(s.drop_last(), x) + if s.last() == x {
            1nat
        } else {
            0nat
        }
    }
}

proof fn lemma_count_in_bound(s: Seq<Seq<char>>, x: Seq<char>)
    ensures
        count_in(s, x) <= s.len(),
    decreases s.len(),
{
    if s.len() > 0 {
        lemma_count_in_bound(s.drop_last(), x);
    }
}

proof fn lemma_contains_split(s: Seq<Seq<char>>, x: Seq<char>)
    requires
        s.len() > 0,
    ensures
        s.contains(x) <==> (s.drop_last().contains(x) || s.last() == x),
{
    if s.contains(x) {
        let k = choose|k: int| 0 <= k < s.len() && s[k] == x;
        if k < s.len() - 1 {
            assert(s.drop_last()[k] == x);
        }
    }
    if s.drop_last().contains(x) {
        let k = choose|k: int| 0 <= k < s.drop_last().len() && s.drop_last()[k] == x;
        assert(s[k] == x);
    }
    if s.last() == x {
        assert(s[s.len() - 1] == x);
    }
}

proof fn lemma_first_occurrences_contains(s: Seq<Seq<char>>, x: Seq<char>)
    ensures
        first_occurrences(s).contains(x) <==> s.contains(x),
    decreases s.len(),
{
    if s.len() > 0 {
        lemma_first_occurrences_contains(s.drop_last(), x);
        lemma_contains_split(s, x);
        let p = first_occurrences(s.drop_last());
        if !p.contains(s.last()) {
            lemma_contains_split(p.push(s.last()), x);
            assert(p.push(s.last()).drop_last() =~= p);
        } else if s.last() == x {
            assert(p.contains(x));
        }
    }
}

/// The position of the entry for `name`.
fn find_key(r: &Vec<(String, usize)>, name: &str) -> (k: Option<usize>)
    ensures
        match k {
            Some(k) => k < r@.len() && r@[k as int].0@ == name@,
            None => forall|q: int| 0 <= q < r@.len() ==> r@[q].0@ != name@,
        },
{
    let mut k: usize = 0;
    while k < r.len()
        invariant
            k <= r@.len(),
            forall|q: int| 0 <= q < k ==> r@[q].0@ != name@,
        decreases r@.len() - k,
    {
        if crate::text::str_eq(r[k].0.as_str(), name) {
            return Some(k);
        }
        k = k + 1;
    }
    None
}

/// The names of `names` in the order they first occur, each with how often
/// it occurs: how often the rules send traffic to each proxy.
pub fn name_frequency(names: &Vec<String>) -> (r: Vec<(String, usize)>)
    ensures
        r@.map_values(|e: (String, usize)| e.0@) == first_occurrences(views(names@)),
        forall|i: int| 0 <= i < r@.len() ==> #[trigger] r@[i].1 == count_in(views(names@), r@[i].0@),
{
    let mut r: Vec<(String, usize)> = Vec::new();
    let mut i: usize = 0;
    while i < names.len()
        invariant
            i <= names@.len(),
            r@.map_values(|e: (String, usize)| e.0@) == first_occurrences(views(names@.take(i as int))),
            forall|j: int| 0 <= j < r@.len() ==> #[trigger] r@[j].1 == count_in(views(names@.take(i as int)), r@[j].0@),
        decreases names@.len() - i,
    {
        let ghost prefix = views(names@.take(i as int));
        let ghost next = views(names@.take(i + 1));
        proof {
            assert(names@.take(i + 1) =~= names@.take(i as int).push(names@[i as int]));
            assert(next =~= prefix.push(names@[i as int]@));
            assert(next.drop_last() =~= prefix);
            assert(next.last() == names@[i as int]@);
        }
        let name = names[i].as_str();
        let found_at = find_key(&r, name);
        let ghost keys = r@.map_values(|e: (String, usize)| e.0@);
        if let Some(k) = found_at {
            proof {
                assert(keys[k as int] == name@);
                assert(first_occurrences(prefix).contains(name@));
                lemma_count_in_bound(prefix, name@);
            }
            let count = r[k].1;
            let key = r[k].0.clone();
            r.set(k, (key, count + 1));
            proof {
                assert(r@.map_values(|e: (String, usize)| e.0@) =~= keys);
                assert(first_occurrences(next) == first_occurrences(prefix));
                assert forall|j: int| 0 <= j < r@.len() implies #[trigger] r@[j].1 == count_in(next, r@[j].0@) by {
                    assert(count_in(next, r@[j].0@) == count_in(prefix, r@[j].0@) + if next.last() == r@[j].0@ { 1nat } else { 0nat });
                    if j != k {
                        assert(keys[j] != keys[k as int]) by {
                            lemma_distinct_first_occurrences(prefix);
                        }
                    }
                }
            }
        } else {
            proof {
                assert(!keys.contains(name@)) by {
                    if keys.contains(name@) {
                        let q = choose|q: int| 0 <= q < keys.len() && keys[q] == name@;
                        assert(r@[q].0@ == keys[q]);
                    }
                }
                lemma_first_occurrences_contains(prefix, name@);
                lemma_count_zero(prefix, name@);
            }
            r.push((names[i].clone(), 1));
            proof {
                assert(r@.map_values(|e: (String, usize)| e.0@) =~= keys.push(name@));
                assert forall|j: int| 0 <= j < r@.len() implies #[trigger] r@[j].1 == count_in(next, r@[j].0@) by {
                    assert(count_in(next, r@[j].0@) == count_in(prefix, r@[j].0@) + if next.last() == r@[j].0@ { 1nat } else { 0nat });
                    if j < r@.len() - 1 {
                        assert(keys[j] != name@);
                    }
                }
            }
        }
        i = i + 1;
    }
    proof {
        assert(names@.take(names@.len() as int) =~= names@);
    }
    r
}

proof fn lemma_count_zero(s: Seq<Seq<char>>, x: Seq<char>)
    requires
        !s.contains(x),
    ensures
        count_in(s, x) == 0,
    decreases s.len(),
{
    if s.len() > 0 {
        assert(s.last() != x) by {
            assert(s[s.len() - 1] == s.last());
        }
        assert(!s.drop_last().contains(x)) by {
            if s.drop_last().contains(x) {
                let k = choose|k: int| 0 <= k < s.drop_last().len() && s.drop_last()[k] == x;
                assert(s[k] == x);
            }
        }
        lemma_count_zero(s.drop_last(), x);
    }
}

proof fn lemma_distinct_first_occurrences(s: Seq<Seq<char>>)
    ensures
        forall|a: int, b: int|
            0 <= a < b < first_occurrences(s).len() ==> #[trigger] first_occurrences(s)[a] != #[trigger] first_occurrences(s)[b],
    decreases s.len(),
{
    if s.len() > 0 {
        lemma_distinct_first_occurrences(s.drop_last());
        let p = first_occurrences(s.drop_last());
        if !p.contains(s.last()) {
            assert forall|a: int, b: int| 0 <= a < b < first_occurrences(s).len() implies #[trigger] first_occurrences(s)[a] != #[trigger] first_occurrences(s)[b] by {
                if b == p.len() {
                    assert(first_occurrences(s)[b] == s.last());
                    assert(first_occurrences(s)[a] == p[a]);
                } else {
                    assert(first_occurrences(s)[a] == p[a]);
                    assert(first_occurrences(s)[b] == p[b]);
                }
            }
        }
    }
}

/// The longest result shown in a list row.
pub const COMPACT_LIMIT: usize = 72;

/// `s` with every line break turned into a space.
pub open spec fn one_line(s: Seq<char>) -> Seq<char> {
    s.map_values(|c: char| if c == '\n' { ' ' } else { c })
}

/// A result on one line, cut to [`COMPACT_LIMIT`] characters and marked
/// with an ellipsis when it is longer.
pub open spec fn compact_text(s: Seq<char>) -> Seq<char> {
    let line = one_line(s);
    if line.len() > COMPACT_LIMIT {
        line.take(COMPACT_LIMIT as int) + "..."@
    } else {
        line
    }
}

/// A result as a list row shows it.
pub fn compact_result(result: &str) -> (r: String)
    ensures
        r@ == compact_text(result@),
{
    let n = result.unicode_len();
    let mut out = String::new();
    let mut i: usize = 0;
    while i < n && i < COMPACT_LIMIT
        invariant
            n == result@.len(),
            i <= n,
            i <= COMPACT_LIMIT,
            out@ == one_line(result@).take(i as int),
        decreases n - i,
    {
        let c = result.get_char(i);
        let shown = if c == '\n' {
            ' '
        } else {
            c
        };
        push_char(&mut out, shown);
        assert(one_line(result@).take(i + 1) =~= one_line(result@).take(i as int).push(shown));
        i = i + 1;
    }
    if n > COMPACT_LIMIT {
        let done = concat(out.as_str(), "...");
        done
    } else {
        assert(one_line(result@).take(i as int) =~= one_line(result@));
        out
    }
}

} // verus!
