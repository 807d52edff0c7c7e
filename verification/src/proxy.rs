//! The proxy page: proxy groups with their members, a cursor on a group and
//! on a member of each group, and a search that narrows both.

use vstd::prelude::*;

use crate::event::{Action, KeyCode, ListEvent};
use crate::list::{lemma_matching, matching};
use crate::model::{is_group, is_normal, History, Proxies, Proxy, ProxyType};
use crate::text::{contains_spec, owned, pop_char, push_char, str_contains, str_eq, to_lowercase, unicode_lower};

verus! {

/// A member of a proxy group, as the proxy page shows it.
#[derive(Debug, PartialEq, Eq)]
pub struct ProxyItem {
    pub name: String,
    pub proxy_type: ProxyType,
    /// The latest latency measurement, if any.
    pub history: Option<History>,
    pub udp: Option<bool>,
    /// For a member that is itself a group: the member it uses.
    pub now: Option<String>,
}

/// A proxy group on the proxy page.
#[derive(Debug, PartialEq, Eq)]
pub struct ProxyGroup {
    pub name: String,
    pub proxy_type: ProxyType,
    pub members: Vec<ProxyItem>,
    /// The member the group uses.
    pub current: Option<usize>,
    /// The member the cursor is on.
    pub cursor: usize,
}

/// How a group is drawn: plain, focused, or focused and opened.
#[derive(Debug, Clone, Copy, PartialEq, Eq, Structural)]
pub enum ProxyGroupFocusStatus {
    Unfocused,
    Focused,
    Expanded,
}

/// Columns taken by the focus marker in front of a collapsed group's rows.
pub const FOCUSED_INDICATOR_WIDTH: usize = 2;

/// A group's cursor and current member point at members.
pub open spec fn group_wf(g: ProxyGroup) -> bool {
    &&& (g.members@.len() == 0 ==> g.cursor == 0)
    &&& (g.members@.len() > 0 ==> g.cursor < g.members@.len())
    &&& (g.current matches Some(c) ==> c < g.members@.len())
}

/// Rows a collapsed group takes: a header row and its member badges, two
/// columns each, wrapped into the width left after the focus marker.
pub open spec fn collapsed_rows(count: int, width: int) -> int {
    let free: int = if width >= FOCUSED_INDICATOR_WIDTH + 2 {
        width - (FOCUSED_INDICATOR_WIDTH + 2)
    } else {
        0
    };
    let per_row: int = if free / 2 >= 1 {
        free / 2
    } else {
        1
    };
    1 + (count + per_row - 1) / per_row
}

impl ProxyGroup {
    pub fn proxy_type(&self) -> (r: ProxyType)
        ensures
            r == self.proxy_type,
    {
        self.proxy_type
    }

    pub fn name(&self) -> (r: &str)
        ensures
            r@ == self.name@,
    {
        self.name.as_str()
    }

    pub fn members(&self) -> (r: &Vec<ProxyItem>)
        ensures
            *r == self.members,
    {
        &self.members
    }

    /// The name of the member under the cursor.
    pub fn current_member_name(&self) -> (r: Option<&str>)
        ensures
            match r {
                Some(n) => self.cursor < self.members@.len() && n@ == self.members@[self.cursor as int].name@,
                None => self.cursor >= self.members@.len(),
            },
    {
        if self.cursor < self.members.len() {
            Some(self.members[self.cursor].name.as_str())
        } else {
            None
        }
    }

    /// Rows the group takes when drawn collapsed `width` columns wide,
    /// showing the members `visible_member_indices` or all of them.
    pub fn collapsed_height(&self, width: usize, visible_member_indices: Option<&[usize]>) -> (r: usize)
        requires
            match visible_member_indices {
                Some(v) => v@.len() < usize::MAX,
                None => self.members@.len() < usize::MAX,
            },
        ensures
            r == collapsed_rows(
                match visible_member_indices {
                    Some(v) => v@.len() as int,
                    None => self.members@.len() as int,
                },
                width as int,
            ),
    {
        let count = match visible_member_indices {
            Some(v) => v.len(),
            None => self.members.len(),
        };
        let free = width.saturating_sub(FOCUSED_INDICATOR_WIDTH + 2);
        let half = free / 2;
        let per_row = if half >= 1 {
            half
        } else {
            1
        };
        let rows = count / per_row + if count % per_row > 0 {
            1
        } else {
            0
        };
        proof {
            assert((count + per_row - 1) / (per_row as int) == count / per_row + if count % per_row
                > 0 {
                1int
            } else {
                0int
            }) by (nonlinear_arith)
                requires
                    per_row >= 1,
            ;
            assert(rows <= count) by (nonlinear_arith)
                requires
                    per_row >= 1,
                    rows == count / per_row + if count % per_row > 0 {
                        1int
                    } else {
                        0int
                    },
            ;
        }
        1 + rows
    }
}

/// The proxy page.
#[derive(Debug, PartialEq, Eq)]
pub struct ProxyTree {
    pub groups: Vec<ProxyGroup>,
    /// The group under the cursor is opened to its members.
    pub expanded: bool,
    /// The group under the cursor.
    pub cursor: usize,
    /// A latency test is running.
    pub testing: bool,
    pub search_query: Option<String>,
    /// The groups a search shows, in order; all groups when `None`.
    pub visible_group_indices: Option<Vec<usize>>,
    /// For each shown group whose own name does not match, the members that
    /// do, in order.
    pub visible_member_indices: Vec<(usize, Vec<usize>)>,
    /// The first shown group drawn in the collapsed view, kept between draws.
    pub window_start: usize,
    /// The first member row drawn in an opened group, kept between draws.
    pub member_window_start: usize,
}

/// Lower-cased names of members.
pub open spec fn lowered_names(members: Seq<ProxyItem>) -> Seq<Seq<char>> {
    members.map_values(|m: ProxyItem| unicode_lower(m.name@))
}

/// Positions of the members whose lower-cased name contains `q`.
pub open spec fn member_hits(g: ProxyGroup, q: Seq<char>) -> Seq<usize> {
    matching(lowered_names(g.members@), q, g.members@.len() as int)
}

/// The lower-cased name of the group contains `q`.
pub open spec fn group_named(g: ProxyGroup, q: Seq<char>) -> bool {
    contains_spec(unicode_lower(g.name@), q)
}

/// A search for `q` shows the group: its name or a member's name matches.
pub open spec fn group_shown(g: ProxyGroup, q: Seq<char>) -> bool {
    group_named(g, q) || member_hits(g, q).len() > 0
}

/// Positions below `n` of the groups a search for `q` shows.
pub open spec fn shown_groups(groups: Seq<ProxyGroup>, q: Seq<char>, n: int) -> Seq<usize>
    decreases n,
{
    if n <= 0 {
        Seq::empty()
    } else if group_shown(groups[n - 1], q) {
        shown_groups(groups, q, n - 1).push((n - 1) as usize)
    } else {
        shown_groups(groups, q, n - 1)
    }
}

/// For the groups below `n` that a search for `q` shows by their members
/// alone: the group's position and the matching members.
pub open spec fn shown_members(groups: Seq<ProxyGroup>, q: Seq<char>, n: int) -> Seq<(usize, Seq<usize>)>
    decreases n,
{
    if n <= 0 {
        Seq::empty()
    } else if !group_named(groups[n - 1], q) && member_hits(groups[n - 1], q).len() > 0 {
        shown_members(groups, q, n - 1).push(((n - 1) as usize, member_hits(groups[n - 1], q)))
    } else {
        shown_members(groups, q, n - 1)
    }
}

/// The member lists as sequences.
pub open spec fn member_lists(v: Seq<(usize, Vec<usize>)>) -> Seq<(usize, Seq<usize>)> {
    v.map_values(|p: (usize, Vec<usize>)| (p.0, p.1@))
}

/// `s` holds ascending positions below `n`.
pub open spec fn ascending_below(s: Seq<usize>, n: int) -> bool {
    &&& forall|i: int, j: int| 0 <= i < j < s.len() ==> #[trigger] s[i] < #[trigger] s[j]
    &&& forall|i: int| 0 <= i < s.len() ==> #[trigger] s[i] < n
}

/// The cursors point at groups and members, and the search view at groups
/// and members that exist.
pub open spec fn tree_wf(t: ProxyTree) -> bool {
    &&& (t.groups@.len() == 0 ==> t.cursor == 0)
    &&& (t.groups@.len() > 0 ==> t.cursor < t.groups@.len())
    &&& groups_wf(t.groups@)
}

/// Every group's cursors point at its members.
pub open spec fn groups_wf(groups: Seq<ProxyGroup>) -> bool {
    forall|i: int| 0 <= i < groups.len() ==> group_wf(#[trigger] groups[i])
}

/// The page after the search view was brought up to date with the query.
/// With a non-empty query the cursor goes to the first shown group; when
/// that group is shown for its members it is opened on the first matching
/// member.
pub open spec fn searched_tree(old: ProxyTree, new: ProxyTree) -> bool {
    &&& new.search_query == old.search_query
    &&& new.testing == old.testing
    &&& new.window_start == old.window_start
    &&& new.member_window_start == old.member_window_start
    &&& new.groups@.len() == old.groups@.len()
    &&& match old.search_query {
        Some(q) if q@.len() > 0 => {
            let lq = unicode_lower(q@);
            let shown = shown_groups(old.groups@, lq, old.groups@.len() as int);
            &&& new.visible_group_indices matches Some(ix) && ix@ == shown
            &&& member_lists(new.visible_member_indices@) == shown_members(
                old.groups@,
                lq,
                old.groups@.len() as int,
            )
            &&& if shown.len() == 0 {
                &&& new.cursor == 0
                &&& !new.expanded
                &&& new.groups == old.groups
            } else {
                let f = shown[0] as int;
                &&& new.cursor == f
                &&& if group_named(old.groups@[f], lq) {
                    &&& !new.expanded
                    &&& new.groups == old.groups
                } else {
                    &&& new.expanded
                    &&& new.groups@ == old.groups@.update(
                        f,
                        ProxyGroup { cursor: member_hits(old.groups@[f], lq)[0], ..old.groups@[f] },
                    )
                }
            }
        },
        _ => {
            &&& new.visible_group_indices is None
            &&& new.visible_member_indices@.len() == 0
            &&& new.cursor == old.cursor
            &&& new.expanded == old.expanded
            &&& new.groups == old.groups
        },
    }
}

proof fn lemma_shown_members_nonempty(groups: Seq<ProxyGroup>, q: Seq<char>, n: int)
    requires
        n <= groups.len(),
        groups.len() <= usize::MAX,
    ensures
        forall|k: int|
            0 <= k < shown_members(groups, q, n).len() ==> {
                let e = #[trigger] shown_members(groups, q, n)[k];
                &&& e.1.len() > 0
                &&& 0 <= e.0 < n
                &&& e.1 == member_hits(groups[e.0 as int], q)
            },
    decreases n,
{
    if n > 0 {
        lemma_shown_members_nonempty(groups, q, n - 1);
        let prev = shown_members(groups, q, n - 1);
        let cur = shown_members(groups, q, n);
        if !group_named(groups[n - 1], q) && member_hits(groups[n - 1], q).len() > 0 {
            assert forall|k: int| 0 <= k < cur.len() implies {
                let e = #[trigger] cur[k];
                &&& e.1.len() > 0
                &&& 0 <= e.0 < n
                &&& e.1 == member_hits(groups[e.0 as int], q)
            } by {
                if k < prev.len() {
                    assert(cur[k] == prev[k]);
                }
            }
        }
    }
}

pub(crate) proof fn lemma_shown_groups(groups: Seq<ProxyGroup>, q: Seq<char>, n: int)
    requires
        0 <= n <= groups.len(),
        groups.len() <= usize::MAX,
    ensures
        ascending_below(shown_groups(groups, q, n), n),
        forall|k: int|
            0 <= k < n ==> (shown_groups(groups, q, n).contains(k as usize) <==> group_shown(
                #[trigger] groups[k],
                q,
            )),
    decreases n,
{
    if n > 0 {
        lemma_shown_groups(groups, q, n - 1);
        let prev = shown_groups(groups, q, n - 1);
        let cur = shown_groups(groups, q, n);
        if group_shown(groups[n - 1], q) {
            assert(cur == prev.push((n - 1) as usize));
            assert forall|k: int| 0 <= k < n implies (cur.contains(k as usize) <==> group_shown(
                #[trigger] groups[k],
                q,
            )) by {
                if k < n - 1 {
                    if prev.contains(k as usize) {
                        let w = choose|w: int| 0 <= w < prev.len() && prev[w] == k as usize;
                        assert(cur[w] == k as usize);
                    }
                    if cur.contains(k as usize) {
                        let w = choose|w: int| 0 <= w < cur.len() && cur[w] == k as usize;
                        if w == prev.len() {
                        } else {
                            assert(prev[w] == k as usize);
                        }
                    }
                } else {
                    assert(cur[prev.len() as int] == (n - 1) as usize);
                }
            }
        } else {
            assert forall|k: int| 0 <= k < n implies (cur.contains(k as usize) <==> group_shown(
                #[trigger] groups[k],
                q,
            )) by {
                if k == n - 1 && prev.contains(k as usize) {
                    let w = choose|w: int| 0 <= w < prev.len() && prev[w] == k as usize;
                    assert(prev[w] < n - 1);
                }
            }
        }
    }
}

impl ProxyGroup {
    /// Whether the lower-cased name contains `q`.
    fn named(&self, q: &str) -> (r: bool)
        ensures
            r == group_named(*self, q@),
    {
        let lower = to_lowercase(self.name.as_str());
        str_contains(lower.as_str(), q)
    }

    /// Members whose lower-cased name contains `q`.
    fn hits(&self, q: &str) -> (r: Vec<usize>)
        ensures
            r@ == member_hits(*self, q@),
            forall|j: int| 0 <= j < r@.len() ==> #[trigger] r@[j] < self.members@.len(),
    {
        let ghost texts = lowered_names(self.members@);
        let mut found: Vec<usize> = Vec::new();
        let mut i: usize = 0;
        while i < self.members.len()
            invariant
                i <= self.members@.len(),
                texts == lowered_names(self.members@),
                found@ == matching(texts, q@, i as int),
            decreases self.members@.len() - i,
        {
            let lower = to_lowercase(self.members[i].name.as_str());
            if str_contains(lower.as_str(), q) {
                found.push(i);
            }
            i = i + 1;
        }
        proof {
            assert(texts.len() == self.members@.len());
            lemma_matching(texts, q@, self.members@.len() as int);
        }
        found
    }
}

/// `r` is the page built from `proxies`: one group for each group entry,
/// in the order of the entries, nothing open, searched or tested.
pub open spec fn built_from(r: ProxyTree, proxies: Proxies) -> bool {
    &&& r.groups@.len() == group_entries(proxies.entries@, proxies.entries@.len() as int).len()
    &&& forall|i: int|
        0 <= i < r.groups@.len() ==> group_of(
            #[trigger] r.groups@[i],
            proxies.entries@,
            group_entries(proxies.entries@, proxies.entries@.len() as int)[i],
        )
    &&& !r.expanded && r.cursor == 0 && !r.testing
    &&& r.search_query is None && r.visible_group_indices is None
    &&& r.visible_member_indices@.len() == 0
}

/// Where group `x` goes among `sorted`: after the last group it does not
/// go before.
pub open spec fn group_insert_pos(freq: Seq<(String, usize)>, sorted: Seq<ProxyGroup>, x: ProxyGroup) -> int
    decreases sorted.len(),
{
    if sorted.len() == 0 {
        0
    } else if goes_before(freq, x, sorted.last()) {
        group_insert_pos(freq, sorted.drop_last(), x)
    } else {
        sorted.len() as int
    }
}

/// The groups ordered by how often rules name them: each group in turn put
/// after the last group already placed that it does not go before, so that
/// groups that neither goes before the other keep their order.
pub open spec fn groups_sorted_by(freq: Seq<(String, usize)>, groups: Seq<ProxyGroup>) -> Seq<ProxyGroup>
    decreases groups.len(),
{
    if groups.len() == 0 {
        Seq::empty()
    } else {
        let placed = groups_sorted_by(freq, groups.drop_last());
        placed.insert(group_insert_pos(freq, placed, groups.last()), groups.last())
    }
}

/// `new` holds the groups of `old` ordered by how often rules name them
/// (see [`groups_in_order`]), with the search of `old` applied again.
pub open spec fn sorted_by_frequency(old: ProxyTree, new: ProxyTree, freq: Seq<(String, usize)>) -> bool {
    exists|sorted: ProxyTree| {
        &&& sorted.groups@ == groups_sorted_by(freq, old.groups@)
        &&& sorted.groups@.to_multiset() == old.groups@.to_multiset()
        &&& groups_in_order(freq, sorted.groups@)
        &&& sorted == (ProxyTree { groups: sorted.groups, ..old })
        &&& searched_tree(sorted, new)
    }
}

/// `new` holds the groups of `fresh`, each with the cursor it had in `old`
/// (see [`restored_cursor`]), and the rest of `old` with its search applied
/// again.
pub open spec fn replaced_by(old: ProxyTree, fresh: ProxyTree, new: ProxyTree) -> bool {
    exists|mid: ProxyTree| {
        &&& mid == (ProxyTree { groups: mid.groups, ..old })
        &&& mid.groups@.len() == fresh.groups@.len()
        &&& forall|i: int|
            0 <= i < fresh.groups@.len() ==> #[trigger] mid.groups@[i] == (ProxyGroup {
                cursor: restored_cursor(old.groups@, fresh.groups@[i]),
                ..fresh.groups@[i]
            })
        &&& searched_tree(mid, new)
    }
}

impl ProxyTree {
    /// An empty page.
    pub fn new() -> (r: ProxyTree)
        ensures
            r.groups@.len() == 0,
            !r.expanded && r.cursor == 0 && !r.testing,
            r.search_query is None && r.visible_group_indices is None,
            r.visible_member_indices@.len() == 0,
            r.window_start == 0 && r.member_window_start == 0,
            shows_its_search(r),
    {
        let r = ProxyTree {
            groups: Vec::new(),
            expanded: false,
            cursor: 0,
            testing: false,
            search_query: None,
            visible_group_indices: None,
            visible_member_indices: Vec::new(),
            window_start: 0,
            member_window_start: 0,
        };
        assert(member_lists(r.visible_member_indices@) =~= Seq::<(usize, Seq<usize>)>::empty());
        r
    }

    pub fn cursor(&self) -> (r: usize)
        ensures
            r == self.cursor,
    {
        self.cursor
    }

    /// The group under the cursor.
    pub fn current_group(&self) -> (r: &ProxyGroup)
        requires
            self.cursor < self.groups@.len(),
        ensures
            *r == self.groups@[self.cursor as int],
    {
        &self.groups[self.cursor]
    }

    pub fn is_testing(&self) -> (r: bool)
        ensures
            r == self.testing,
    {
        self.testing
    }

    pub fn is_searching(&self) -> (r: bool)
        ensures
            r == (self.search_query is Some),
    {
        self.search_query.is_some()
    }

    /// Starts a search with an empty query; every group stays shown.
    pub fn begin_search(&mut self)
        ensures
            member_lists_ok(*final(self)),
            final(self).search_query matches Some(q) && q@.len() == 0,
            final(self).visible_group_indices is None,
            final(self).visible_member_indices@.len() == 0,
            final(self).groups == old(self).groups,
            final(self).cursor == old(self).cursor,
            final(self).expanded == old(self).expanded,
            final(self).testing == old(self).testing,
            final(self).window_start == old(self).window_start,
            final(self).member_window_start == old(self).member_window_start,
            shows_its_search(*final(self)),
    {
        self.search_query = Some(String::new());
        self.visible_group_indices = None;
        self.visible_member_indices = Vec::new();
        assert(member_lists(self.visible_member_indices@) =~= Seq::<(usize, Seq<usize>)>::empty());
    }

    /// Ends the search; every group is shown again, the cursors stay.
    pub fn cancel_search(&mut self)
        ensures
            member_lists_ok(*final(self)),
            final(self).search_query is None,
            final(self).visible_group_indices is None,
            final(self).visible_member_indices@.len() == 0,
            final(self).groups == old(self).groups,
            final(self).cursor == old(self).cursor,
            final(self).expanded == old(self).expanded,
            final(self).testing == old(self).testing,
            final(self).window_start == old(self).window_start,
            final(self).member_window_start == old(self).member_window_start,
            shows_its_search(*final(self)),
    {
        self.search_query = None;
        self.visible_group_indices = None;
        self.visible_member_indices = Vec::new();
        assert(member_lists(self.visible_member_indices@) =~= Seq::<(usize, Seq<usize>)>::empty());
    }

    pub fn start_testing(&mut self)
        ensures
            *final(self) == (ProxyTree { testing: true, ..*old(self) }),
            shows_its_search(*old(self)) ==> shows_its_search(*final(self)),
    {
        self.testing = true;
    }

    pub fn end_testing(&mut self)
        ensures
            *final(self) == (ProxyTree { testing: false, ..*old(self) }),
            shows_its_search(*old(self)) ==> shows_its_search(*final(self)),
    {
        self.testing = false;
    }

    /// Brings the search view up to date with the query; see
    /// [`searched_tree`].
    fn apply_search(&mut self)
        requires
            groups_wf(old(self).groups@),
        ensures
            searched_tree(*old(self), *final(self)),
            groups_wf(final(self).groups@),
            tree_wf(*old(self)) ==> tree_wf(*final(self)),
            member_lists_ok(*final(self)),
    {
        let query = match &self.search_query {
            Some(q) => {
                if q.unicode_len() == 0 {
                    self.visible_group_indices = None;
                    self.visible_member_indices = Vec::new();
                    return ;
                }
                to_lowercase(q.as_str())
            },
            None => {
                self.visible_group_indices = None;
                self.visible_member_indices = Vec::new();
                return ;
            },
        };
        let mut shown: Vec<usize> = Vec::new();
        let mut members: Vec<(usize, Vec<usize>)> = Vec::new();
        let mut i: usize = 0;
        while i < self.groups.len()
            invariant
                i <= self.groups@.len(),
                shown@ == shown_groups(self.groups@, query@, i as int),
                member_lists(members@) == shown_members(self.groups@, query@, i as int),
                forall|k: int|
                    0 <= k < members@.len() ==> {
                        let e = #[trigger] members@[k];
                        &&& e.0 < self.groups@.len()
                        &&& forall|j: int| 0 <= j < e.1@.len() ==> #[trigger] e.1@[j] < self.groups@[e.0 as int].members@.len()
                    },
            decreases self.groups@.len() - i,
        {
            if self.groups[i].named(query.as_str()) {
                shown.push(i);
            } else {
                let hits = self.groups[i].hits(query.as_str());
                if hits.len() > 0 {
                    shown.push(i);
                    let ghost before = members@;
                    members.push((i, hits));
                    assert(member_lists(members@) =~= member_lists(before).push(
                        (i, member_hits(self.groups@[i as int], query@)),
                    ));
                }
            }
            i = i + 1;
        }
        let ghost gs = self.groups@;
        if shown.len() > 0 {
            let f = shown[0];
            proof {
                lemma_shown_groups(self.groups@, query@, self.groups@.len() as int);
                assert(shown@.contains(f));
            }
            self.cursor = f;
            if self.groups[f].named(query.as_str()) {
                self.expanded = false;
            } else {
                let hits = self.groups[f].hits(query.as_str());
                proof {
                    crate::list::lemma_vec_len_fits(&self.groups@[f as int].members);
                }
                proof {
                    assert(lowered_names(self.groups@[f as int].members@).len() == self.groups@[f as int].members@.len());
                    let h = member_hits(self.groups@[f as int], query@);
                    lemma_matching(lowered_names(self.groups@[f as int].members@), query@, self.groups@[f as int].members@.len() as int);
                    assert(h.contains(h[0]));
                }
                self.groups[f].cursor = hits[0];
                self.expanded = true;
            }
        } else {
            self.cursor = 0;
            self.expanded = false;
        }
        self.visible_group_indices = Some(shown);
        self.visible_member_indices = members;
        proof {
            lemma_shown_members_nonempty(gs, query@, gs.len() as int);
            assert forall|k: int| 0 <= k < self.visible_member_indices@.len() implies {
                let e = #[trigger] self.visible_member_indices@[k];
                &&& e.1@.len() > 0
                &&& e.0 < self.groups@.len()
                &&& forall|j: int| 0 <= j < e.1@.len() ==> #[trigger] e.1@[j] < self.groups@[e.0 as int].members@.len()
            } by {
                let e = self.visible_member_indices@[k];
                assert(member_lists(self.visible_member_indices@)[k] == (e.0, e.1@));
                let se = shown_members(gs, query@, gs.len() as int)[k];
                assert(se.1.len() > 0);
                let g = gs[e.0 as int];
                assert(self.groups@[e.0 as int].members == g.members);
            }
        }
    }
}

/// Position of the first `x` in `s`.
pub open spec fn first_index(s: Seq<usize>, x: usize) -> Option<int>
    decreases s.len(),
{
    if s.len() == 0 {
        None
    } else if s[0] == x {
        Some(0)
    } else {
        match first_index(s.drop_first(), x) {
            Some(i) => Some(i + 1),
            None => None,
        }
    }
}

/// Position of `x` in `s`, or the first position when it is not there.
pub open spec fn pos_or_first(s: Seq<usize>, x: usize) -> int {
    match first_index(s, x) {
        Some(i) => i,
        None => 0,
    }
}

proof fn lemma_first_index(s: Seq<usize>, x: usize, i: int)
    requires
        0 <= i <= s.len(),
        forall|k: int| 0 <= k < i ==> s[k] != x,
    ensures
        i < s.len() && s[i] == x ==> first_index(s, x) == Some(i),
        i == s.len() ==> first_index(s, x) is None,
    decreases i,
{
    if i > 0 {
        lemma_first_index(s.drop_first(), x, i - 1);
    }
}

/// Position of the first `x` in `s`, or the first position.
fn position_or_first(s: &[usize], x: usize) -> (r: usize)
    ensures
        r == pos_or_first(s@, x),
        s@.len() > 0 ==> r < s@.len(),
{
    let mut i: usize = 0;
    while i < s.len()
        invariant
            i <= s@.len(),
            forall|k: int| 0 <= k < i ==> s@[k] != x,
        decreases s@.len() - i,
    {
        if s[i] == x {
            proof {
                lemma_first_index(s@, x, i as int);
            }
            return i;
        }
        i = i + 1;
    }
    proof {
        lemma_first_index(s@, x, i as int);
    }
    0
}

/// The members shown for group `g`, when a search narrows them.
pub open spec fn members_of(v: Seq<(usize, Vec<usize>)>, g: usize) -> Option<Seq<usize>>
    decreases v.len(),
{
    if v.len() == 0 {
        None
    } else if v[0].0 == g {
        Some(v[0].1@)
    } else {
        members_of(v.drop_first(), g)
    }
}

proof fn lemma_members_of(v: Seq<(usize, Vec<usize>)>, g: usize, i: int)
    requires
        0 <= i <= v.len(),
        forall|k: int| 0 <= k < i ==> v[k].0 != g,
    ensures
        i < v.len() && v[i].0 == g ==> members_of(v, g) == Some(v[i].1@),
        i == v.len() ==> members_of(v, g) is None,
    decreases i,
{
    if i > 0 {
        lemma_members_of(v.drop_first(), g, i - 1);
    }
}

proof fn lemma_members_of_entry(v: Seq<(usize, Vec<usize>)>, g: usize)
    ensures
        members_of(v, g) matches Some(s) ==> exists|k: int| 0 <= k < v.len() && v[k].0 == g && v[k].1@ == s,
    decreases v.len(),
{
    if v.len() > 0 && v[0].0 != g {
        lemma_members_of_entry(v.drop_first(), g);
        if members_of(v.drop_first(), g) is Some {
            let k = choose|k: int| 0 <= k < v.drop_first().len() && v.drop_first()[k].0 == g && v.drop_first()[k].1@ == members_of(v, g)->0;
            assert(v[k + 1] == v.drop_first()[k]);
        }
    } else if v.len() > 0 {
        assert(v[0].0 == g);
    }
}

proof fn lemma_members_of_nonempty(t: ProxyTree, g: usize)
    requires
        member_lists_ok(t),
    ensures
        members_of(t.visible_member_indices@, g) matches Some(s) ==> s.len() > 0 && g < t.groups@.len()
            && forall|j: int| 0 <= j < s.len() ==> s[j] < t.groups@[g as int].members@.len(),
{
    lemma_members_of_entry(t.visible_member_indices@, g);
    if members_of(t.visible_member_indices@, g) is Some {
        let k = choose|k: int| 0 <= k < t.visible_member_indices@.len() && t.visible_member_indices@[k].0 == g && t.visible_member_indices@[k].1@ == members_of(t.visible_member_indices@, g)->0;
        let e = t.visible_member_indices@[k];
        assert forall|j: int| 0 <= j < e.1@.len() implies e.1@[j] < t.groups@[g as int].members@.len() by {
            assert(e.1@[j] < t.groups@[e.0 as int].members@.len());
        }
    }
}

/// The groups shown: those of the search, or all.
pub open spec fn shown_indices(t: ProxyTree) -> Seq<usize> {
    match t.visible_group_indices {
        Some(ix) => ix@,
        None => Seq::new(t.groups@.len(), |i: int| i as usize),
    }
}

/// `a - b`, or zero.
pub open spec fn sub_or_zero(a: int, b: int) -> int {
    if a >= b {
        a - b
    } else {
        0
    }
}

/// The smaller of two integers.
pub open spec fn min_int(a: int, b: int) -> int {
    if a <= b {
        a
    } else {
        b
    }
}

/// Where Up or Down puts the member cursor of the opened group: among the
/// shown members when a search narrows them, among all members otherwise;
/// three members at a time when fast.
pub open spec fn moved_member(t: ProxyTree, fast: bool, code: KeyCode) -> usize {
    let step: int = if fast {
        3
    } else {
        1
    };
    let g = t.groups@[t.cursor as int];
    match code {
        KeyCode::Up => match members_of(t.visible_member_indices@, t.cursor) {
            Some(v) => v[sub_or_zero(pos_or_first(v, g.cursor), step)],
            None => if g.cursor > 0 {
                sub_or_zero(g.cursor as int, step) as usize
            } else {
                g.cursor
            },
        },
        KeyCode::Down => match members_of(t.visible_member_indices@, t.cursor) {
            Some(v) => v[min_int(pos_or_first(v, g.cursor) + step, v.len() - 1)],
            None => (g.cursor + min_int(sub_or_zero(g.members@.len() as int, g.cursor + 1), step)) as usize,
        },
        _ => g.cursor,
    }
}

/// Where Up or Down puts the group cursor: on the previous or next shown
/// group, if there is one.
pub open spec fn moved_group(t: ProxyTree, code: KeyCode) -> usize {
    let v = shown_indices(t);
    let p = pos_or_first(v, t.cursor);
    match code {
        KeyCode::Up => if p > 0 {
            v[p - 1]
        } else {
            t.cursor
        },
        KeyCode::Down => if p + 1 < v.len() {
            v[p + 1]
        } else {
            t.cursor
        },
        _ => t.cursor,
    }
}

/// Up and Down on a collapsed tree walk the shown groups: with the cursor
/// on the `k`-th shown group (its first place among them), Down moves it to
/// the next shown group and Up to the one before, where there is one, and
/// leave it otherwise; any other key leaves it.
pub proof fn group_keys_walk_the_shown_groups(t: ProxyTree, k: int, code: KeyCode)
    requires
        0 <= k < shown_indices(t).len(),
        shown_indices(t)[k] == t.cursor,
        forall|j: int| 0 <= j < k ==> shown_indices(t)[j] != t.cursor,
    ensures
        code is Down && k + 1 < shown_indices(t).len() ==> moved_group(t, code) == shown_indices(t)[k + 1],
        code is Down && k + 1 == shown_indices(t).len() ==> moved_group(t, code) == t.cursor,
        code is Up && k > 0 ==> moved_group(t, code) == shown_indices(t)[k - 1],
        code is Up && k == 0 ==> moved_group(t, code) == t.cursor,
        !(code is Up || code is Down) ==> moved_group(t, code) == t.cursor,
{
    lemma_first_index(shown_indices(t), t.cursor, k);
}

/// Up and Down on a collapsed tree whose cursor is on no shown group act as
/// if it were on the first: Down moves it to the second shown group, if
/// there is one, and Up leaves it.
pub proof fn group_keys_from_a_hidden_group(t: ProxyTree, code: KeyCode)
    requires
        forall|j: int| 0 <= j < shown_indices(t).len() ==> shown_indices(t)[j] != t.cursor,
    ensures
        code is Down && shown_indices(t).len() > 1 ==> moved_group(t, code) == shown_indices(t)[1],
        code is Up ==> moved_group(t, code) == t.cursor,
{
    lemma_first_index(shown_indices(t), t.cursor, shown_indices(t).len() as int);
}

/// Up and Down in an opened group that no search narrows move the member
/// cursor one member (three when fast) back or on, not before the first
/// member and not past the last.
pub proof fn member_keys_step_through_members(t: ProxyTree, fast: bool, code: KeyCode)
    requires
        t.cursor < t.groups@.len(),
        members_of(t.visible_member_indices@, t.cursor) is None,
        t.groups@[t.cursor as int].cursor < t.groups@[t.cursor as int].members@.len(),
        t.groups@[t.cursor as int].members@.len() <= usize::MAX,
    ensures
        ({
            let c = t.groups@[t.cursor as int].cursor as int;
            let len = t.groups@[t.cursor as int].members@.len() as int;
            let step: int = if fast {
                3
            } else {
                1
            };
            &&& code is Down ==> moved_member(t, fast, code) == (if c + step <= len - 1 {
                c + step
            } else {
                len - 1
            })
            &&& code is Up ==> moved_member(t, fast, code) == (if c >= step {
                c - step
            } else {
                0
            })
            &&& !(code is Up || code is Down) ==> moved_member(t, fast, code) == c
        }),
{
    let c = t.groups@[t.cursor as int].cursor as int;
    let len = t.groups@[t.cursor as int].members@.len() as int;
    let step: int = if fast {
        3
    } else {
        1
    };
    assert(sub_or_zero(len, c + 1) == len - 1 - c);
    if code is Down {
        assert(moved_member(t, fast, code) == (c + min_int(len - 1 - c, step)) as usize);
    }
    if code is Up {
        assert(moved_member(t, fast, code) == (if c > 0 { sub_or_zero(c, step) as usize } else { c as usize }));
    }
}

/// Up and Down in an opened group that a search narrows to the members `v`
/// move the member cursor among them: from the `k`-th (its first place in
/// `v`) one on or back (three when fast), not past either end.
pub proof fn member_keys_step_through_found_members(t: ProxyTree, fast: bool, code: KeyCode, v: Seq<usize>, k: int)
    requires
        t.cursor < t.groups@.len(),
        members_of(t.visible_member_indices@, t.cursor) == Some(v),
        0 <= k < v.len(),
        v[k] == t.groups@[t.cursor as int].cursor,
        forall|j: int| 0 <= j < k ==> v[j] != t.groups@[t.cursor as int].cursor,
    ensures
        ({
            let step: int = if fast {
                3
            } else {
                1
            };
            &&& code is Down ==> moved_member(t, fast, code) == v[if k + step <= v.len() - 1 {
                k + step
            } else {
                v.len() - 1
            }]
            &&& code is Up ==> moved_member(t, fast, code) == v[if k >= step {
                k - step
            } else {
                0
            }]
        }),
{
    lemma_first_index(v, t.groups@[t.cursor as int].cursor, k);
}

/// The members narrowed by a search are non-empty lists of members of
/// groups that exist.
pub open spec fn member_lists_ok(t: ProxyTree) -> bool {
    forall|k: int|
        0 <= k < t.visible_member_indices@.len() ==> {
            let e = #[trigger] t.visible_member_indices@[k];
            &&& e.1@.len() > 0
            &&& e.0 < t.groups@.len()
            &&& forall|j: int| 0 <= j < e.1@.len() ==> #[trigger] e.1@[j] < t.groups@[e.0 as int].members@.len()
        }
}

impl ProxyTree {
    /// The groups shown: those of the search, or all of them.
    pub fn visible_group_indices(&self) -> (r: Vec<usize>)
        ensures
            r@ == shown_indices(*self),
    {
        match &self.visible_group_indices {
            Some(ix) => ix.clone(),
            None => {
                let mut r: Vec<usize> = Vec::new();
                let mut i: usize = 0;
                while i < self.groups.len()
                    invariant
                        i <= self.groups@.len(),
                        r@ == Seq::new(i as nat, |k: int| k as usize),
                    decreases self.groups@.len() - i,
                {
                    r.push(i);
                    assert(r@ =~= Seq::new((i + 1) as nat, |k: int| k as usize));
                    i = i + 1;
                }
                r
            },
        }
    }

    /// The members of group `group_index` that a search shows, when it
    /// narrows them.
    pub fn visible_member_indices(&self, group_index: usize) -> (r: Option<&[usize]>)
        ensures
            match r {
                Some(v) => members_of(self.visible_member_indices@, group_index) == Some(v@),
                None => members_of(self.visible_member_indices@, group_index) is None,
            },
    {
        let mut i: usize = 0;
        while i < self.visible_member_indices.len()
            invariant
                i <= self.visible_member_indices@.len(),
                forall|k: int| 0 <= k < i ==> self.visible_member_indices@[k].0 != group_index,
            decreases self.visible_member_indices@.len() - i,
        {
            if self.visible_member_indices[i].0 == group_index {
                proof {
                    lemma_members_of(self.visible_member_indices@, group_index, i as int);
                }
                return Some(self.visible_member_indices[i].1.as_slice());
            }
            i = i + 1;
        }
        proof {
            lemma_members_of(self.visible_member_indices@, group_index, i as int);
        }
        None
    }

    /// Position of the cursor among the shown groups.
    pub fn visible_cursor_pos(&self) -> (r: usize)
        ensures
            r == (match self.visible_group_indices {
                Some(ix) => match first_index(ix@, self.cursor) {
                    Some(i) => i as usize,
                    None => self.cursor,
                },
                None => self.cursor,
            }),
    {
        match &self.visible_group_indices {
            Some(ix) => {
                let mut i: usize = 0;
                while i < ix.len()
                    invariant
                        self.visible_group_indices == Some(*ix),
                        i <= ix@.len(),
                        forall|k: int| 0 <= k < i ==> ix@[k] != self.cursor,
                    decreases ix@.len() - i,
                {
                    if ix[i] == self.cursor {
                        proof {
                            lemma_first_index(ix@, self.cursor, i as int);
                        }
                        return i;
                    }
                    i = i + 1;
                }
                proof {
                    lemma_first_index(ix@, self.cursor, i as int);
                }
                self.cursor
            },
            None => self.cursor,
        }
    }

    /// Number of groups shown.
    pub fn len(&self) -> (r: usize)
        ensures
            r == shown_indices(*self).len(),
    {
        match &self.visible_group_indices {
            Some(ix) => ix.len(),
            None => self.groups.len(),
        }
    }

    /// No group is shown.
    pub fn is_empty(&self) -> (r: bool)
        ensures
            r == (shown_indices(*self).len() == 0),
    {
        self.len() == 0
    }

    /// Opens or closes the group under the cursor.
    pub fn toggle(&mut self)
        ensures
            *final(self) == (ProxyTree { expanded: !old(self).expanded, ..*old(self) }),
            shows_its_search(*old(self)) ==> shows_its_search(*final(self)),
    {
        self.expanded = !self.expanded;
    }

    /// Closes the group under the cursor.
    pub fn end(&mut self)
        ensures
            *final(self) == (ProxyTree { expanded: false, ..*old(self) }),
            shows_its_search(*old(self)) ==> shows_its_search(*final(self)),
    {
        self.expanded = false;
    }

    /// Opens the group under the cursor.
    pub fn hold(&mut self)
        ensures
            *final(self) == (ProxyTree { expanded: true, ..*old(self) }),
            shows_its_search(*old(self)) ==> shows_its_search(*final(self)),
    {
        self.expanded = true;
    }

    /// A movement key; see [`moved_member`] and [`moved_group`]. Right or
    /// Enter in an opened selector group asks to switch it to the member
    /// under the cursor.
    pub fn handle(&mut self, event: ListEvent) -> (r: Option<Action>)
        requires
            groups_wf(old(self).groups@),
            member_lists_ok(*old(self)),
            old(self).expanded ==> old(self).cursor < old(self).groups@.len(),
            old(self).expanded && (event.code is Right || event.code is Enter)
                && old(self).groups@[old(self).cursor as int].proxy_type is Selector
                ==> old(self).groups@[old(self).cursor as int].members@.len() > 0,
        ensures
            groups_wf(final(self).groups@),
            member_lists_ok(*final(self)),
            old(self).expanded ==> {
                let c = old(self).cursor as int;
                let g = old(self).groups@[c];
                &&& *final(self) == (ProxyTree { groups: final(self).groups, ..*old(self) })
                &&& final(self).groups@ == old(self).groups@.update(
                    c,
                    ProxyGroup { cursor: moved_member(*old(self), event.fast, event.code), ..g },
                )
                &&& if (event.code is Right || event.code is Enter) && g.proxy_type is Selector {
                    r matches Some(Action::ApplySelection { group, proxy }) && group@ == g.name@
                        && proxy@ == g.members@[g.cursor as int].name@
                } else {
                    r is None
                }
            },
            !old(self).expanded ==> {
                &&& r is None
                &&& *final(self) == (ProxyTree {
                    cursor: moved_group(*old(self), event.code),
                    expanded: event.code is Enter,
                    ..*old(self)
                })
            },
            shows_its_search(*old(self)) ==> shows_its_search(*final(self)),
    {
        if self.expanded {
            let step: usize = if event.fast {
                3
            } else {
                1
            };
            let c = self.cursor;
            let gc = self.groups[c].cursor;
            let len = self.groups[c].members.len();
            let ghost t = *self;
            let next: usize = match event.code {
                KeyCode::Up => match self.visible_member_indices(c) {
                    Some(v) => {
                        proof {
                            lemma_members_of_nonempty(*self, c);
                        }
                        let p = position_or_first(v, gc);
                        v[p.saturating_sub(step)]
                    },
                    None => if gc > 0 {
                        gc.saturating_sub(step)
                    } else {
                        gc
                    },
                },
                KeyCode::Down => match self.visible_member_indices(c) {
                    Some(v) => {
                        proof {
                            lemma_members_of_nonempty(*self, c);
                        }
                        let p = position_or_first(v, gc);
                        let last = v.len() - 1;
                        let n = if p < last && step < last - p {
                            p + step
                        } else {
                            last
                        };
                        v[n]
                    },
                    None => {
                        let left = len.saturating_sub(gc + 1);
                        gc + if left < step {
                            left
                        } else {
                            step
                        }
                    },
                },
                _ => gc,
            };
            self.groups[c].cursor = next;
            proof {
                assert forall|i: int| 0 <= i < t.groups@.len() implies (#[trigger] t.groups@[i]).name
                    == self.groups@[i].name && t.groups@[i].members == self.groups@[i].members by {
                    if i != c {
                        assert(self.groups@[i] == t.groups@[i]);
                    }
                }
                lemma_same_search(t, *self);
            }
            match event.code {
                KeyCode::Right | KeyCode::Enter => {
                    if self.groups[c].proxy_type.is_selector() {
                        let group = self.groups[c].name.clone();
                        let proxy = self.groups[c].members[gc].name.clone();
                        return Some(Action::ApplySelection { group, proxy });
                    }
                },
                _ => {},
            }
            None
        } else {
            let v = self.visible_group_indices();
            let p = position_or_first(v.as_slice(), self.cursor);
            match event.code {
                KeyCode::Up => {
                    if p > 0 {
                        self.cursor = v[p - 1];
                    }
                },
                KeyCode::Down => {
                    if v.len() > 0 && p < v.len() - 1 {
                        self.cursor = v[p + 1];
                    }
                },
                KeyCode::Enter => self.expanded = true,
                _ => {},
            }
            None
        }
    }
}

impl ProxyTree {
    /// Adds a character to the query, when searching, and searches again.
    pub fn input_search_char(&mut self, ch: char)
        requires
            groups_wf(old(self).groups@),
        ensures
            groups_wf(final(self).groups@),
            tree_wf(*old(self)) ==> tree_wf(*final(self)),
            member_lists_ok(*old(self)) ==> member_lists_ok(*final(self)),
            old(self).search_query is Some ==> shows_its_search(*final(self)),
            match old(self).search_query {
                Some(q) => final(self).search_query matches Some(nq) && nq@ == q@.push(ch)
                    && searched_tree(ProxyTree { search_query: final(self).search_query, ..*old(self) }, *final(self)),
                None => *final(self) == *old(self),
            },
            shows_its_search(*old(self)) ==> shows_its_search(*final(self)),
    {
        match self.search_query.take() {
            Some(mut q) => {
                push_char(&mut q, ch);
                self.search_query = Some(q);
                self.apply_search();
                proof {
                    lemma_searched_shows(ProxyTree { search_query: self.search_query, ..*old(self) }, *self);
                }
            },
            None => {},
        }
    }

    /// Removes the last character of the query, when searching, and
    /// searches again.
    pub fn backspace_search(&mut self)
        requires
            groups_wf(old(self).groups@),
        ensures
            groups_wf(final(self).groups@),
            tree_wf(*old(self)) ==> tree_wf(*final(self)),
            member_lists_ok(*old(self)) ==> member_lists_ok(*final(self)),
            old(self).search_query is Some ==> shows_its_search(*final(self)),
            match old(self).search_query {
                Some(q) => final(self).search_query matches Some(nq) && nq@ == (if q@.len() > 0 {
                    q@.drop_last()
                } else {
                    q@
                }) && searched_tree(ProxyTree { search_query: final(self).search_query, ..*old(self) }, *final(self)),
                None => *final(self) == *old(self),
            },
            shows_its_search(*old(self)) ==> shows_its_search(*final(self)),
    {
        match self.search_query.take() {
            Some(mut q) => {
                let _ = pop_char(&mut q);
                self.search_query = Some(q);
                self.apply_search();
                proof {
                    lemma_searched_shows(ProxyTree { search_query: self.search_query, ..*old(self) }, *self);
                }
            },
            None => {},
        }
    }
}

/// A search shows exactly the groups whose name, or the name of one of
/// whose members, contains the query in any letter case; the groups shown
/// keep their order; and a group shown for its members alone shows exactly
/// the members whose name contains the query.
pub proof fn search_shows_exactly_the_matches(before: ProxyTree, after: ProxyTree)
    requires
        before.groups@.len() <= usize::MAX,
        searched_tree(before, after),
        before.search_query matches Some(q) && q@.len() > 0,
    ensures
        ({
            let lq = unicode_lower(before.search_query->0@);
            let shown = after.visible_group_indices->0@;
            &&& ascending_below(shown, before.groups@.len() as int)
            &&& forall|k: int|
                0 <= k < before.groups@.len() ==> (shown.contains(k as usize) <==> group_shown(
                    #[trigger] before.groups@[k],
                    lq,
                ))
        }),
{
    lemma_shown_groups(
        before.groups@,
        unicode_lower(before.search_query->0@),
        before.groups@.len() as int,
    );
}

/// Names of the normal members of `groups`, group by group, in order.
pub open spec fn normal_member_names(groups: Seq<ProxyGroup>) -> Seq<Seq<char>>
    decreases groups.len(),
{
    if groups.len() == 0 {
        Seq::empty()
    } else {
        normal_member_names(groups.drop_last()) + normal_names_of(groups.last().members@)
    }
}

/// Names of the normal proxies among `members`, in order.
pub open spec fn normal_names_of(members: Seq<ProxyItem>) -> Seq<Seq<char>>
    decreases members.len(),
{
    if members.len() == 0 {
        Seq::empty()
    } else if is_normal(members.last().proxy_type) {
        normal_names_of(members.drop_last()).push(members.last().name@)
    } else {
        normal_names_of(members.drop_last())
    }
}

/// `s` with every name after its first occurrence left out.
pub open spec fn first_occurrences(s: Seq<Seq<char>>) -> Seq<Seq<char>>
    decreases s.len(),
{
    if s.len() == 0 {
        Seq::empty()
    } else if first_occurrences(s.drop_last()).contains(s.last()) {
        first_occurrences(s.drop_last())
    } else {
        first_occurrences(s.drop_last()).push(s.last())
    }
}

/// The views of a list of strings.
pub open spec fn views(v: Seq<String>) -> Seq<Seq<char>> {
    v.map_values(|s: String| s@)
}

fn contains_name(names: &Vec<String>, name: &str) -> (r: bool)
    ensures
        r == views(names@).contains(name@),
{
    let mut i: usize = 0;
    while i < names.len()
        invariant
            i <= names@.len(),
            forall|k: int| 0 <= k < i ==> names@[k]@ != name@,
        decreases names@.len() - i,
    {
        if str_eq(names[i].as_str(), name) {
            assert(views(names@)[i as int] == name@);
            return true;
        }
        i = i + 1;
    }
    assert forall|k: int| 0 <= k < views(names@).len() implies views(names@)[k] != name@ by {
        assert(views(names@)[k] == names@[k]@);
    }
    false
}

impl ProxyTree {
    /// The normal proxies of all groups, each name once, in the order they
    /// first appear: what a test of all nodes measures.
    pub fn unique_normal_members(&self) -> (r: Vec<String>)
        ensures
            views(r@) == first_occurrences(normal_member_names(self.groups@)),
    {
        let mut r: Vec<String> = Vec::new();
        let mut i: usize = 0;
        while i < self.groups.len()
            invariant
                i <= self.groups@.len(),
                views(r@) == first_occurrences(normal_member_names(self.groups@.subrange(0, i as int))),
            decreases self.groups@.len() - i,
        {
            let ghost before = normal_member_names(self.groups@.subrange(0, i as int));
            let members = &self.groups[i].members;
            let mut j: usize = 0;
            while j < members.len()
                invariant
                    j <= members@.len(),
                    views(r@) == first_occurrences(before + normal_names_of(members@.subrange(0, j as int))),
                decreases members@.len() - j,
            {
                let ghost prev = before + normal_names_of(members@.subrange(0, j as int));
                proof {
                    assert(members@.subrange(0, j + 1).drop_last() =~= members@.subrange(0, j as int));
                }
                if members[j].proxy_type.is_normal() {
                    proof {
                        assert(before + normal_names_of(members@.subrange(0, j + 1)) =~= prev.push(members@[j as int].name@));
                        assert(prev.push(members@[j as int].name@).drop_last() =~= prev);
                    }
                    if !contains_name(&r, members[j].name.as_str()) {
                        let ghost old_r = r@;
                        r.push(members[j].name.clone());
                        assert(views(r@) =~= views(old_r).push(members@[j as int].name@));
                    }
                } else {
                    assert(before + normal_names_of(members@.subrange(0, j + 1)) =~= prev);
                }
                j = j + 1;
            }
            proof {
                assert(members@.subrange(0, members@.len() as int) =~= members@);
                assert(self.groups@.subrange(0, i + 1).drop_last() =~= self.groups@.subrange(0, i as int));
                assert(self.groups@.subrange(0, i + 1).last() == self.groups@[i as int]);
            }
            i = i + 1;
        }
        assert(self.groups@.subrange(0, self.groups@.len() as int) =~= self.groups@);
        r
    }
}

/// `a` comes before `b` in code-point order, as `String`'s ordering
/// compares (UTF-8 byte order is code-point order).
pub open spec fn lex_less(a: Seq<char>, b: Seq<char>) -> bool
    decreases a.len(),
{
    if a.len() == 0 {
        b.len() > 0
    } else if b.len() == 0 {
        false
    } else if (a[0] as u32) < (b[0] as u32) {
        true
    } else if (a[0] as u32) > (b[0] as u32) {
        false
    } else {
        lex_less(a.drop_first(), b.drop_first())
    }
}

pub(crate) proof fn lemma_lex_asymmetric(a: Seq<char>, b: Seq<char>)
    ensures
        !(lex_less(a, b) && lex_less(b, a)),
    decreases a.len(),
{
    if a.len() > 0 && b.len() > 0 && (a[0] as u32) == (b[0] as u32) {
        lemma_lex_asymmetric(a.drop_first(), b.drop_first());
    }
}

proof fn lemma_lex_suffix(a: Seq<char>, b: Seq<char>, i: int)
    requires
        0 <= i <= a.len(),
        i <= b.len(),
        a.subrange(0, i) == b.subrange(0, i),
    ensures
        lex_less(a, b) == lex_less(a.subrange(i, a.len() as int), b.subrange(i, b.len() as int)),
    decreases i,
{
    if i > 0 {
        assert(a[0] == a.subrange(0, i)[0]);
        assert(b[0] == b.subrange(0, i)[0]);
        assert(a.drop_first().subrange(0, i - 1) =~= a.subrange(0, i).drop_first());
        assert(b.drop_first().subrange(0, i - 1) =~= b.subrange(0, i).drop_first());
        lemma_lex_suffix(a.drop_first(), b.drop_first(), i - 1);
        assert(a.drop_first().subrange(i - 1, a.len() - 1) =~= a.subrange(i, a.len() as int));
        assert(b.drop_first().subrange(i - 1, b.len() - 1) =~= b.subrange(i, b.len() as int));
    } else {
        assert(a.subrange(0, a.len() as int) =~= a);
        assert(b.subrange(0, b.len() as int) =~= b);
    }
}

/// Whether `a` sorts before `b` by code point.
pub fn str_less(a: &str, b: &str) -> (r: bool)
    ensures
        r == lex_less(a@, b@),
{
    let n = a.unicode_len();
    let m = b.unicode_len();
    let mut i: usize = 0;
    while i < n && i < m
        invariant
            n == a@.len(),
            m == b@.len(),
            i <= n,
            i <= m,
            a@.subrange(0, i as int) == b@.subrange(0, i as int),
        decreases n - i,
    {
        let x = a.get_char(i);
        let y = b.get_char(i);
        if x != y {
            proof {
                lemma_lex_suffix(a@, b@, i as int);
                assert(a@.subrange(i as int, n as int)[0] == x);
                assert(b@.subrange(i as int, m as int)[0] == y);
            }
            return (x as u32) < (y as u32);
        }
        assert(a@.subrange(0, i + 1) =~= a@.subrange(0, i as int).push(x));
        assert(b@.subrange(0, i + 1) =~= b@.subrange(0, i as int).push(y));
        i = i + 1;
    }
    proof {
        lemma_lex_suffix(a@, b@, i as int);
    }
    i == n && i < m
}

/// How often the rules name `name`, if at all: the first entry for it.
pub open spec fn freq_of(freq: Seq<(String, usize)>, name: Seq<char>) -> Option<usize>
    decreases freq.len(),
{
    if freq.len() == 0 {
        None
    } else if freq[0].0@ == name {
        Some(freq[0].1)
    } else {
        freq_of(freq.drop_first(), name)
    }
}

proof fn lemma_freq_of(freq: Seq<(String, usize)>, name: Seq<char>, i: int)
    requires
        0 <= i <= freq.len(),
        forall|k: int| 0 <= k < i ==> freq[k].0@ != name,
    ensures
        i < freq.len() && freq[i].0@ == name ==> freq_of(freq, name) == Some(freq[i].1),
        i == freq.len() ==> freq_of(freq, name) is None,
    decreases i,
{
    if i > 0 {
        lemma_freq_of(freq.drop_first(), name, i - 1);
    }
}

fn lookup_freq(freq: &Vec<(String, usize)>, name: &str) -> (r: Option<usize>)
    ensures
        r == freq_of(freq@, name@),
{
    let mut i: usize = 0;
    while i < freq.len()
        invariant
            i <= freq@.len(),
            forall|k: int| 0 <= k < i ==> freq@[k].0@ != name@,
        decreases freq@.len() - i,
    {
        if str_eq(freq[i].0.as_str(), name) {
            proof {
                lemma_freq_of(freq@, name@, i as int);
            }
            return Some(freq[i].1);
        }
        i = i + 1;
    }
    proof {
        lemma_freq_of(freq@, name@, i as int);
    }
    None
}

/// Group `a` goes before group `b`: groups the rules use come first, the
/// more used first; the others follow in name order.
pub open spec fn goes_before(freq: Seq<(String, usize)>, a: ProxyGroup, b: ProxyGroup) -> bool {
    match (freq_of(freq, a.name@), freq_of(freq, b.name@)) {
        (Some(fa), Some(fb)) => fb < fa,
        (Some(_), None) => true,
        (None, Some(_)) => false,
        (None, None) => lex_less(a.name@, b.name@),
    }
}

/// No group goes before the one in front of it.
pub open spec fn groups_in_order(freq: Seq<(String, usize)>, groups: Seq<ProxyGroup>) -> bool {
    forall|i: int| 0 <= i < groups.len() - 1 ==> !goes_before(freq, #[trigger] groups[i + 1], groups[i])
}

proof fn lemma_goes_before_asymmetric(freq: Seq<(String, usize)>, a: ProxyGroup, b: ProxyGroup)
    ensures
        goes_before(freq, a, b) ==> !goes_before(freq, b, a),
{
    lemma_lex_asymmetric(a.name@, b.name@);
}

fn group_goes_before(freq: &Vec<(String, usize)>, a: &ProxyGroup, b: &ProxyGroup) -> (r: bool)
    ensures
        r == goes_before(freq@, *a, *b),
{
    match (lookup_freq(freq, a.name.as_str()), lookup_freq(freq, b.name.as_str())) {
        (Some(fa), Some(fb)) => fb < fa,
        (Some(_), None) => true,
        (None, Some(_)) => false,
        (None, None) => str_less(a.name.as_str(), b.name.as_str()),
    }
}

impl ProxyTree {
    /// Orders the groups by how often the rules use them (see
    /// [`goes_before`]), keeping groups that compare equal in their order,
    /// and searches again.
    pub fn sort_groups_with_frequency(&mut self, freq: &Vec<(String, usize)>)
        requires
            groups_wf(old(self).groups@),
        ensures
            groups_wf(final(self).groups@),
            member_lists_ok(*final(self)),
            sorted_by_frequency(*old(self), *final(self), freq@),
            shows_its_search(*final(self)),
    {
        let ghost start = *self;
        let mut rest: Vec<ProxyGroup> = Vec::new();
        std::mem::swap(&mut rest, &mut self.groups);
        let mut sorted: Vec<ProxyGroup> = Vec::new();
        proof {
            vstd::seq_lib::to_multiset_len(sorted@);
            vstd::multiset::lemma_multiset_empty_len(sorted@.to_multiset());
            assert(sorted@.to_multiset().add(rest@.to_multiset()) =~= rest@.to_multiset());
        }
        let ghost consumed: int = 0;
        proof {
            assert(start.groups@.take(0) =~= Seq::<ProxyGroup>::empty());
            assert(start.groups@.skip(0) =~= start.groups@);
        }
        while rest.len() > 0
            invariant
                0 <= consumed <= start.groups@.len(),
                rest@ == start.groups@.skip(consumed),
                sorted@ == groups_sorted_by(freq@, start.groups@.take(consumed)),
                sorted@.to_multiset().add(rest@.to_multiset()) == start.groups@.to_multiset(),
                sorted@.len() + rest@.len() == start.groups@.len(),
                groups_in_order(freq@, sorted@),
                forall|k: int| 0 <= k < sorted@.len() ==> group_wf(#[trigger] sorted@[k]),
                forall|k: int| 0 <= k < rest@.len() ==> group_wf(#[trigger] rest@[k]),
            decreases rest@.len(),
        {
            let ghost rest_before = rest@;
            let x = rest.remove(0);
            proof {
                assert(rest@ == rest_before.remove(0));
                vstd::seq_lib::to_multiset_remove(rest_before, 0);
                vstd::seq_lib::to_multiset_contains(rest_before, x);
                assert(rest@.to_multiset() =~= rest_before.to_multiset().remove(x));
                assert(rest_before.to_multiset().count(x) > 0) by {
                    assert(rest_before[0] == x);
                    assert(rest_before.contains(x));
                }
                assert(rest_before.to_multiset() =~= rest@.to_multiset().insert(x));
                assert(group_wf(rest_before[0]));
                assert forall|j: int| 0 <= j < rest@.len() implies group_wf(#[trigger] rest@[j]) by {
                    assert(rest@[j] == rest_before[j + 1]);
                }
            }
            let mut k = sorted.len();
            proof {
                assert(sorted@.take(k as int) =~= sorted@);
            }
            while k > 0 && group_goes_before(freq, &x, &sorted[k - 1])
                invariant
                    k <= sorted@.len(),
                    group_insert_pos(freq@, sorted@.take(k as int), x) == group_insert_pos(freq@, sorted@, x),
                    forall|j: int| k <= j < sorted@.len() ==> goes_before(freq@, x, #[trigger] sorted@[j]),
                decreases k,
            {
                proof {
                    assert(sorted@.take(k as int).drop_last() =~= sorted@.take(k - 1));
                    assert(sorted@.take(k as int).last() == sorted@[k - 1]);
                }
                k = k - 1;
            }
            proof {
                if k > 0 {
                    assert(sorted@.take(k as int).last() == sorted@[k - 1]);
                }
            }
            assert(group_insert_pos(freq@, sorted@, x) == k);
            let ghost before = sorted@;
            assert(k == 0 || !goes_before(freq@, x, before[k - 1]));
            proof {
                if k < before.len() {
                    lemma_goes_before_asymmetric(freq@, x, before[k as int]);
                }
            }
            sorted.insert(k, x);
            proof {
                assert(sorted@ =~= before.insert(k as int, x));
                vstd::seq_lib::to_multiset_insert(before, k as int, x);
                assert(sorted@.to_multiset() =~= before.to_multiset().insert(x));
                assert forall|i: int| 0 <= i < sorted@.len() - 1 implies !goes_before(freq@, #[trigger] sorted@[i + 1], sorted@[i]) by {
                    if i + 1 < k {
                        assert(sorted@[i] == before[i]);
                        assert(sorted@[i + 1] == before[i + 1]);
                        assert(!goes_before(freq@, before[i + 1], before[i]));
                    } else if i + 1 == k {
                        assert(sorted@[i] == before[i]);
                        assert(sorted@[i + 1] == x);
                        assert(!goes_before(freq@, x, before[i]));
                    } else if i == k {
                        assert(sorted@[i] == x);
                        assert(sorted@[i + 1] == before[i]);
                        assert(goes_before(freq@, x, before[i]));
                        assert(!goes_before(freq@, before[i], x));
                    } else {
                        assert(sorted@[i] == before[i - 1]);
                        assert(sorted@[i + 1] == before[i]);
                        let j = i - 1;
                        assert(!goes_before(freq@, before[j + 1], before[j]));
                    }
                }
                assert forall|j: int| 0 <= j < sorted@.len() implies group_wf(#[trigger] sorted@[j]) by {
                    if j < k {
                        assert(sorted@[j] == before[j]);
                    } else if j > k {
                        assert(sorted@[j] == before[j - 1]);
                    }
                }
                assert(start.groups@.take(consumed + 1).drop_last() =~= start.groups@.take(consumed));
                assert(start.groups@[consumed] == x);
                assert(start.groups@.take(consumed + 1).last() == x);
                assert(rest@ =~= start.groups@.skip(consumed + 1));
                consumed = consumed + 1;
            }
        }
        proof {
            assert(consumed == start.groups@.len());
            assert(start.groups@.take(consumed) =~= start.groups@);
        }
        self.groups = sorted;
        let ghost mid = *self;
        proof {
            vstd::seq_lib::to_multiset_len(rest@);
            vstd::multiset::lemma_multiset_empty_len(rest@.to_multiset());
            assert(rest@.to_multiset() =~= vstd::multiset::Multiset::empty());
            assert(sorted@.to_multiset().add(rest@.to_multiset()) =~= sorted@.to_multiset());
            assert(mid.groups@.to_multiset() == start.groups@.to_multiset());
        }
        self.apply_search();
        proof {
            lemma_searched_shows(mid, *self);
        }
    }
}

/// The first group named `name`.
pub open spec fn group_named_as(groups: Seq<ProxyGroup>, name: Seq<char>) -> Option<int>
    decreases groups.len(),
{
    if groups.len() == 0 {
        None
    } else if groups[0].name@ == name {
        Some(0)
    } else {
        match group_named_as(groups.drop_first(), name) {
            Some(i) => Some(i + 1),
            None => None,
        }
    }
}

/// Position of the first member named `name`.
pub open spec fn member_named(members: Seq<ProxyItem>, name: Seq<char>) -> Option<int>
    decreases members.len(),
{
    if members.len() == 0 {
        None
    } else if members[0].name@ == name {
        Some(0)
    } else {
        match member_named(members.drop_first(), name) {
            Some(i) => Some(i + 1),
            None => None,
        }
    }
}

proof fn lemma_group_named_as(groups: Seq<ProxyGroup>, name: Seq<char>, i: int)
    requires
        0 <= i <= groups.len(),
        forall|k: int| 0 <= k < i ==> groups[k].name@ != name,
    ensures
        i < groups.len() && groups[i].name@ == name ==> group_named_as(groups, name) == Some(i),
        i == groups.len() ==> group_named_as(groups, name) is None,
    decreases i,
{
    if i > 0 {
        lemma_group_named_as(groups.drop_first(), name, i - 1);
    }
}

proof fn lemma_member_named(members: Seq<ProxyItem>, name: Seq<char>, i: int)
    requires
        0 <= i <= members.len(),
        forall|k: int| 0 <= k < i ==> members[k].name@ != name,
    ensures
        i < members.len() && members[i].name@ == name ==> member_named(members, name) == Some(i),
        i == members.len() ==> member_named(members, name) is None,
    decreases i,
{
    if i > 0 {
        lemma_member_named(members.drop_first(), name, i - 1);
    }
}

fn find_group(groups: &Vec<ProxyGroup>, name: &str) -> (r: Option<usize>)
    ensures
        match r {
            Some(i) => group_named_as(groups@, name@) == Some(i as int),
            None => group_named_as(groups@, name@) is None,
        },
{
    let mut i: usize = 0;
    while i < groups.len()
        invariant
            i <= groups@.len(),
            forall|k: int| 0 <= k < i ==> groups@[k].name@ != name@,
        decreases groups@.len() - i,
    {
        if str_eq(groups[i].name.as_str(), name) {
            proof {
                lemma_group_named_as(groups@, name@, i as int);
            }
            return Some(i);
        }
        i = i + 1;
    }
    proof {
        lemma_group_named_as(groups@, name@, i as int);
    }
    None
}

fn find_member(members: &Vec<ProxyItem>, name: &str) -> (r: Option<usize>)
    ensures
        match r {
            Some(i) => member_named(members@, name@) == Some(i as int),
            None => member_named(members@, name@) is None,
        },
{
    let mut i: usize = 0;
    while i < members.len()
        invariant
            i <= members@.len(),
            forall|k: int| 0 <= k < i ==> members@[k].name@ != name@,
        decreases members@.len() - i,
    {
        if str_eq(members[i].name.as_str(), name) {
            proof {
                lemma_member_named(members@, name@, i as int);
            }
            return Some(i);
        }
        i = i + 1;
    }
    proof {
        lemma_member_named(members@, name@, i as int);
    }
    None
}

proof fn lemma_named_in_range(groups: Seq<ProxyGroup>, members: Seq<ProxyItem>, name: Seq<char>)
    ensures
        group_named_as(groups, name) matches Some(i) ==> 0 <= i < groups.len() && groups[i].name@ == name,
        member_named(members, name) matches Some(i) ==> 0 <= i < members.len() && members[i].name@ == name,
    decreases groups.len() + members.len(),
{
    if groups.len() > 0 {
        lemma_named_in_range(groups.drop_first(), members, name);
    }
    if members.len() > 0 {
        lemma_named_in_range(groups, members.drop_first(), name);
    }
}

/// Where the member cursor of a group of a fresh listing goes: onto the
/// member the cursor was on before, found by name in the group of the same
/// name; else onto the member the group uses; else the first member. A group
/// that was not there before keeps its cursor.
pub open spec fn restored_cursor(olds: Seq<ProxyGroup>, g: ProxyGroup) -> usize {
    match group_named_as(olds, g.name@) {
        None => g.cursor,
        Some(o) => {
            let og = olds[o];
            let found = if og.cursor < og.members@.len() {
                member_named(g.members@, og.members@[og.cursor as int].name@)
            } else {
                None
            };
            match found {
                Some(p) => p as usize,
                None => match g.current {
                    Some(c) => c,
                    None => 0,
                },
            }
        },
    }
}

impl ProxyTree {
    /// Takes the groups of a fresh listing, keeping each group's member
    /// cursor where it was (see [`restored_cursor`]), and searches again. The
    /// group cursor stays as it was.
    pub fn replace_with(&mut self, new_tree: ProxyTree)
        requires
            groups_wf(old(self).groups@),
            groups_wf(new_tree.groups@),
        ensures
            groups_wf(final(self).groups@),
            member_lists_ok(*final(self)),
            replaced_by(*old(self), new_tree, *final(self)),
            shows_its_search(*final(self)),
    {
        let mut groups = new_tree.groups;
        let ghost fresh = groups@;
        let mut i: usize = 0;
        while i < groups.len()
            invariant
                i <= groups@.len(),
                groups@.len() == fresh.len(),
                groups_wf(fresh),
                forall|k: int|
                    0 <= k < i ==> #[trigger] groups@[k] == (ProxyGroup {
                        cursor: restored_cursor(self.groups@, fresh[k]),
                        ..fresh[k]
                    }),
                forall|k: int| i <= k < fresh.len() ==> #[trigger] groups@[k] == fresh[k],
                forall|k: int| 0 <= k < i ==> group_wf(#[trigger] groups@[k]),
            decreases fresh.len() - i,
        {
            let ghost g = fresh[i as int];
            proof {
                assert(groups@[i as int] == g);
                assert(group_wf(g));
            }
            match find_group(&self.groups, groups[i].name.as_str()) {
                Some(o) => {
                    proof {
                        lemma_named_in_range(self.groups@, g.members@, g.name@);
                    }
                    let old_cursor = self.groups[o].cursor;
                    let found = if old_cursor < self.groups[o].members.len() {
                        let old_name = self.groups[o].members[old_cursor].name.as_str();
                        let f = find_member(&groups[i].members, old_name);
                        proof {
                            lemma_named_in_range(self.groups@, g.members@, old_name@);
                        }
                        f
                    } else {
                        None
                    };
                    let c = match found {
                        Some(p) => p,
                        None => match groups[i].current {
                            Some(c) => c,
                            None => 0,
                        },
                    };
                    groups[i].cursor = c;
                },
                None => {},
            }
            i = i + 1;
        }
        self.groups = groups;
        let ghost mid = *self;
        self.apply_search();
        proof {
            lemma_searched_shows(mid, *self);
        }
    }
}

/// Position of the first proxy named `name` in the listing.
pub open spec fn entry_named(entries: Seq<(String, Proxy)>, name: Seq<char>) -> Option<int>
    decreases entries.len(),
{
    if entries.len() == 0 {
        None
    } else if entries[0].0@ == name {
        Some(0)
    } else {
        match entry_named(entries.drop_first(), name) {
            Some(i) => Some(i + 1),
            None => None,
        }
    }
}

proof fn lemma_entry_named(entries: Seq<(String, Proxy)>, name: Seq<char>, i: int)
    requires
        0 <= i <= entries.len(),
        forall|k: int| 0 <= k < i ==> entries[k].0@ != name,
    ensures
        i < entries.len() && entries[i].0@ == name ==> entry_named(entries, name) == Some(i),
        i == entries.len() ==> entry_named(entries, name) is None,
    decreases i,
{
    if i > 0 {
        lemma_entry_named(entries.drop_first(), name, i - 1);
    }
}

/// Position of the first `name` among the member names `all`.
pub open spec fn name_pos(all: Seq<String>, name: Seq<char>) -> Option<int>
    decreases all.len(),
{
    if all.len() == 0 {
        None
    } else if all[0]@ == name {
        Some(0)
    } else {
        match name_pos(all.drop_first(), name) {
            Some(i) => Some(i + 1),
            None => None,
        }
    }
}

/// The listing can be shown as groups: every group lists its members, each
/// member is in the listing, and the member a group uses is one of its
/// members.
pub open spec fn proxies_complete(entries: Seq<(String, Proxy)>) -> bool {
    forall|e: int|
        0 <= e < entries.len() && is_group(#[trigger] entries[e].1.proxy_type) ==> {
            &&& entries[e].1.all is Some
            &&& forall|m: int|
                0 <= m < entries[e].1.all->0@.len() ==> entry_named(
                    entries,
                    #[trigger] entries[e].1.all->0@[m]@,
                ) is Some
            &&& (entries[e].1.now matches Some(n) ==> name_pos(entries[e].1.all->0@, n@) is Some)
        }
}

/// A member built from a proxy of the listing: its name, type, first
/// latency record, UDP flag and the member it uses.
pub open spec fn item_of(item: ProxyItem, name: Seq<char>, p: Proxy) -> bool {
    &&& item.name@ == name
    &&& item.proxy_type == p.proxy_type
    &&& item.history == (if p.history@.len() > 0 {
        Some(p.history@[0])
    } else {
        None
    })
    &&& item.udp == p.udp
    &&& match (item.now, p.now) {
        (Some(a), Some(b)) => a@ == b@,
        (None, None) => true,
        _ => false,
    }
}

/// A group built from the group entry `e` of the listing.
pub open spec fn group_of(g: ProxyGroup, entries: Seq<(String, Proxy)>, e: int) -> bool {
    let p = entries[e].1;
    let all = p.all->0@;
    &&& g.name@ == entries[e].0@
    &&& g.proxy_type == p.proxy_type
    &&& g.members@.len() == all.len()
    &&& forall|m: int|
        0 <= m < all.len() ==> item_of(
            #[trigger] g.members@[m],
            all[m]@,
            entries[entry_named(entries, all[m]@)->0].1,
        )
    &&& g.current == (match p.now {
        Some(n) => Some(name_pos(all, n@)->0 as usize),
        None => None,
    })
    &&& g.cursor == (match g.current {
        Some(c) => c,
        None => 0,
    })
}

/// Positions of the group entries of the listing below `n`, in order.
pub open spec fn group_entries(entries: Seq<(String, Proxy)>, n: int) -> Seq<int>
    decreases n,
{
    if n <= 0 {
        Seq::empty()
    } else if is_group(entries[n - 1].1.proxy_type) {
        group_entries(entries, n - 1).push(n - 1)
    } else {
        group_entries(entries, n - 1)
    }
}

fn find_entry(entries: &Vec<(String, Proxy)>, name: &str) -> (r: Option<usize>)
    ensures
        match r {
            Some(i) => entry_named(entries@, name@) == Some(i as int) && (i as int) < entries@.len(),
            None => entry_named(entries@, name@) is None,
        },
{
    let mut i: usize = 0;
    while i < entries.len()
        invariant
            i <= entries@.len(),
            forall|k: int| 0 <= k < i ==> entries@[k].0@ != name@,
        decreases entries@.len() - i,
    {
        if str_eq(entries[i].0.as_str(), name) {
            proof {
                lemma_entry_named(entries@, name@, i as int);
            }
            return Some(i);
        }
        i = i + 1;
    }
    proof {
        lemma_entry_named(entries@, name@, i as int);
    }
    None
}

fn item_from(name: &String, p: &Proxy) -> (r: ProxyItem)
    ensures
        item_of(r, name@, *p),
{
    ProxyItem {
        name: name.clone(),
        proxy_type: p.proxy_type,
        history: if p.history.len() > 0 {
            Some(p.history[0])
        } else {
            None
        },
        udp: p.udp,
        now: match &p.now {
            Some(n) => Some(n.clone()),
            None => None,
        },
    }
}

proof fn lemma_name_pos(all: Seq<String>, name: Seq<char>, i: int)
    requires
        0 <= i <= all.len(),
        forall|k: int| 0 <= k < i ==> all[k]@ != name,
    ensures
        i < all.len() && all[i]@ == name ==> name_pos(all, name) == Some(i),
        i == all.len() ==> name_pos(all, name) is None,
    decreases i,
{
    if i > 0 {
        lemma_name_pos(all.drop_first(), name, i - 1);
    }
}

proof fn lemma_name_pos_range(all: Seq<String>, name: Seq<char>)
    ensures
        name_pos(all, name) matches Some(i) ==> 0 <= i < all.len(),
    decreases all.len(),
{
    if all.len() > 0 {
        lemma_name_pos_range(all.drop_first(), name);
    }
}

fn name_index(all: &Vec<String>, name: &str) -> (r: Option<usize>)
    ensures
        match r {
            Some(i) => name_pos(all@, name@) == Some(i as int),
            None => name_pos(all@, name@) is None,
        },
{
    let mut i: usize = 0;
    while i < all.len()
        invariant
            i <= all@.len(),
            forall|k: int| 0 <= k < i ==> all@[k]@ != name@,
        decreases all@.len() - i,
    {
        if str_eq(all[i].as_str(), name) {
            proof {
                lemma_name_pos(all@, name@, i as int);
            }
            return Some(i);
        }
        i = i + 1;
    }
    proof {
        lemma_name_pos(all@, name@, i as int);
    }
    None
}

fn group_from(entries: &Vec<(String, Proxy)>, e: usize) -> (r: ProxyGroup)
    requires
        e < entries@.len(),
        is_group(entries@[e as int].1.proxy_type),
        proxies_complete(entries@),
    ensures
        group_of(r, entries@, e as int),
        group_wf(r),
{
    let p = &entries[e].1;
    let all = match &p.all {
        Some(all) => all,
        None => {
            assert(false);
            return ProxyGroup { name: String::new(), proxy_type: p.proxy_type, members: Vec::new(), current: None, cursor: 0 };
        },
    };
    let mut members: Vec<ProxyItem> = Vec::new();
    let mut m: usize = 0;
    while m < all.len()
        invariant
            p == &entries@[e as int].1,
            p.all == Some(*all),
            e < entries@.len(),
            is_group(entries@[e as int].1.proxy_type),
            proxies_complete(entries@),
            m <= all@.len(),
            members@.len() == m,
            forall|k: int|
                0 <= k < m ==> item_of(
                    #[trigger] members@[k],
                    all@[k]@,
                    entries@[entry_named(entries@, all@[k]@)->0].1,
                ),
        decreases all@.len() - m,
    {
        assert(entry_named(entries@, all@[m as int]@) is Some);
        let k = match find_entry(entries, all[m].as_str()) {
            Some(k) => k,
            None => {
                assert(false);
                0
            },
        };
        members.push(item_from(&all[m], &entries[k].1));
        m = m + 1;
    }
    let current = match &p.now {
        Some(n) => {
            let found = name_index(all, n.as_str());
            proof {
                assert(name_pos(all@, n@) is Some);
                lemma_name_pos_range(all@, n@);
            }
            found
        },
        None => None,
    };
    let cursor = match current {
        Some(c) => c,
        None => 0,
    };
    ProxyGroup { name: entries[e].0.clone(), proxy_type: p.proxy_type, members, current, cursor }
}

impl ProxyTree {
    /// The page for a listing of proxies: its groups, in order, each with
    /// its members and the cursor on the member it uses.
    pub fn from_proxies(proxies: &Proxies) -> (r: ProxyTree)
        requires
            proxies_complete(proxies.entries@),
        ensures
            tree_wf(r),
            built_from(r, *proxies),
            shows_its_search(r),
    {
        let mut tree = ProxyTree::new();
        let mut e: usize = 0;
        while e < proxies.entries.len()
            invariant
                proxies_complete(proxies.entries@),
                e <= proxies.entries@.len(),
                tree.groups@.len() == group_entries(proxies.entries@, e as int).len(),
                forall|i: int|
                    0 <= i < tree.groups@.len() ==> group_of(
                        #[trigger] tree.groups@[i],
                        proxies.entries@,
                        group_entries(proxies.entries@, e as int)[i],
                    ),
                groups_wf(tree.groups@),
                !tree.expanded && tree.cursor == 0 && !tree.testing,
                tree.search_query is None && tree.visible_group_indices is None,
                tree.visible_member_indices@.len() == 0,
            decreases proxies.entries@.len() - e,
        {
            if proxies.entries[e].1.proxy_type.is_group() {
                let g = group_from(&proxies.entries, e);
                tree.groups.push(g);
            }
            e = e + 1;
        }
        assert(member_lists(tree.visible_member_indices@) =~= Seq::<(usize, Seq<usize>)>::empty());
        tree
    }
}

/// Whether the listing can be shown as groups; see [`proxies_complete`].
pub fn listing_is_complete(proxies: &Proxies) -> (r: bool)
    ensures
        r == proxies_complete(proxies.entries@),
{
    let entries = &proxies.entries;
    let mut e: usize = 0;
    while e < entries.len()
        invariant
            *entries == proxies.entries,
            e <= entries@.len(),
            forall|k: int|
                0 <= k < e && is_group(#[trigger] entries@[k].1.proxy_type) ==> {
                    &&& entries@[k].1.all is Some
                    &&& forall|m: int|
                        0 <= m < entries@[k].1.all->0@.len() ==> entry_named(
                            entries@,
                            #[trigger] entries@[k].1.all->0@[m]@,
                        ) is Some
                    &&& (entries@[k].1.now matches Some(n) ==> name_pos(entries@[k].1.all->0@, n@) is Some)
                },
        decreases entries@.len() - e,
    {
        let p = &entries[e].1;
        if p.proxy_type.is_group() {
            let all = match &p.all {
                Some(all) => all,
                None => return false,
            };
            let mut m: usize = 0;
            while m < all.len()
                invariant
                    *entries == proxies.entries,
                    e < entries@.len(),
                    entries@[e as int].1.all == Some(*all),
                    is_group(entries@[e as int].1.proxy_type),
                    m <= all@.len(),
                    forall|j: int| 0 <= j < m ==> entry_named(entries@, #[trigger] all@[j]@) is Some,
                decreases all@.len() - m,
            {
                if find_entry(entries, all[m].as_str()).is_none() {
                    proof {
                        assert(entries@[e as int].1.all->0@[m as int] == all@[m as int]);
                        assert(entry_named(entries@, entries@[e as int].1.all->0@[m as int]@) is None);
                        assert(!proxies_complete(proxies.entries@));
                    }
                    return false;
                }
                m = m + 1;
            }
            match &p.now {
                Some(n) => {
                    if name_index(all, n.as_str()).is_none() {
                        return false;
                    }
                },
                None => {},
            }
        }
        e = e + 1;
    }
    true
}

/// Draws a proxy page.
pub struct ProxyTreeWidget<'a> {
    pub state: &'a ProxyTree,
}

impl<'a> ProxyTreeWidget<'a> {
    pub fn new(state: &'a ProxyTree) -> (r: ProxyTreeWidget<'a>)
        ensures
            *r.state == *state,
    {
        ProxyTreeWidget { state }
    }
}

/// Sum of `heights[start..=end]`; nothing when the range leaves `heights`.
pub open spec fn window_rows(heights: Seq<usize>, start: int, end: int) -> int
    decreases end - start + 1,
{
    if end >= heights.len() || start > end || start < 0 {
        0
    } else {
        window_rows(heights, start, end - 1) + heights[end]
    }
}

/// The window stops moving at `s`: it reached the focused group, or the
/// groups from `s` to the focused one fit.
pub open spec fn window_fits(heights: Seq<usize>, s: int, cursor: int, viewport: int) -> bool {
    s >= cursor || window_rows(heights, s, cursor) <= viewport
}

/// The first group drawn in the collapsed view, given the rows each shown
/// group takes, the previous first group and the focused one: the window
/// is pulled up to the focused group when it moved above, and otherwise
/// moves down only as far as the focused group needs to fit.
pub open spec fn collapsed_start_spec(heights: Seq<usize>, prev: int, cursor: int, viewport: int, s: int) -> bool {
    let lo = if prev <= cursor {
        prev
    } else {
        cursor
    };
    &&& lo <= s <= cursor || (s == lo && lo > cursor)
    &&& window_fits(heights, s, cursor, viewport)
    &&& forall|t: int| lo <= t < s ==> !window_fits(heights, t, cursor, viewport)
}

fn rows_exceed(heights: &Vec<usize>, start: usize, cursor: usize, viewport: usize) -> (r: bool)
    requires
        start <= cursor,
    ensures
        r == (window_rows(heights@, start as int, cursor as int) > viewport),
{
    if cursor >= heights.len() {
        return false;
    }
    let mut acc: u128 = 0;
    let mut i: usize = start;
    while i <= cursor
        invariant
            start <= i <= cursor + 1,
            cursor < heights@.len(),
            heights@.len() <= usize::MAX,
            acc == window_rows(heights@, start as int, i - 1),
            acc <= viewport,
        decreases cursor + 1 - i,
    {
        acc = acc + heights[i] as u128;
        if acc > viewport as u128 {
            proof {
                lemma_window_rows_grow(heights@, start as int, i as int, cursor as int);
            }
            return true;
        }
        i = i + 1;
    }
    false
}

proof fn lemma_window_rows_grow(heights: Seq<usize>, start: int, i: int, end: int)
    requires
        0 <= start <= i <= end < heights.len(),
    ensures
        window_rows(heights, start, end) >= window_rows(heights, start, i),
    decreases end - i,
{
    if i < end {
        lemma_window_rows_grow(heights, start, i, end - 1);
    }
}

/// The first group drawn in the collapsed view; see
/// [`collapsed_start_spec`].
pub fn collapsed_window_start(heights: &Vec<usize>, prev: usize, cursor: usize, viewport: usize) -> (r: usize)
    ensures
        collapsed_start_spec(heights@, prev as int, cursor as int, viewport as int, r as int),
{
    let mut start = if prev <= cursor {
        prev
    } else {
        cursor
    };
    let ghost lo = start as int;
    while start < cursor && rows_exceed(heights, start, cursor, viewport)
        invariant
            lo <= start <= cursor,
            lo == (if prev <= cursor {
                prev as int
            } else {
                cursor as int
            }),
            forall|t: int| lo <= t < start ==> !window_fits(heights@, t, cursor as int, viewport as int),
        decreases cursor - start,
    {
        start = start + 1;
    }
    start
}

/// The first member row drawn in an opened group, given the previous one,
/// the position of the focused member among the shown ones and the rows
/// available: it moves only as far as keeps the focused member in view.
pub open spec fn member_start_spec(prev: int, cursor: int, viewport: int) -> int {
    if cursor < prev {
        cursor
    } else if viewport > 0 && cursor >= prev + viewport {
        cursor + 1 - viewport
    } else {
        prev
    }
}

pub fn member_window_start(prev: usize, cursor: usize, viewport: usize) -> (r: usize)
    ensures
        r == member_start_spec(prev as int, cursor as int, viewport as int),
{
    if cursor < prev {
        cursor
    } else if viewport > 0 && cursor - prev >= viewport {
        cursor - (viewport - 1)
    } else {
        prev
    }
}

/// Where the focused member of the group under the cursor stands among the
/// members the page shows of it: its place in the search's list of them, or
/// its own position where the search does not narrow the group or leaves the
/// member out.
pub open spec fn focused_member_place(t: ProxyTree) -> int {
    let c = t.groups@[t.cursor as int].cursor;
    match members_of(t.visible_member_indices@, t.cursor) {
        Some(v) => match first_index(v, c) {
            Some(i) => i,
            None => c as int,
        },
        None => c as int,
    }
}

impl ProxyTree {
    /// The first member row to draw of the opened group with `viewport`
    /// member rows on screen. The start moves only as far as keeps the
    /// focused member in view, and is kept for the next draw.
    pub fn settle_member_window(&mut self, viewport: usize) -> (r: usize)
        requires
            old(self).cursor < old(self).groups@.len(),
        ensures
            r == member_start_spec(
                old(self).member_window_start as int,
                focused_member_place(*old(self)),
                viewport as int,
            ),
            *final(self) == (ProxyTree { member_window_start: r, ..*old(self) }),
            shows_its_search(*old(self)) ==> shows_its_search(*final(self)),
    {
        let c = self.groups[self.cursor].cursor;
        let place = match self.visible_member_indices(self.cursor) {
            Some(v) => {
                let mut i: usize = 0;
                let mut found = false;
                while i < v.len() && !found
                    invariant
                        i <= v@.len(),
                        found ==> i < v@.len() && first_index(v@, c) == Some(i as int),
                        !found ==> forall|k: int| 0 <= k < i ==> v@[k] != c,
                    decreases v@.len() - i + if found { 0int } else { 1int },
                {
                    if v[i] == c {
                        proof {
                            lemma_first_index(v@, c, i as int);
                        }
                        found = true;
                    } else {
                        i = i + 1;
                    }
                }
                if found {
                    i
                } else {
                    proof {
                        lemma_first_index(v@, c, i as int);
                    }
                    c
                }
            },
            None => c,
        };
        let start = member_window_start(self.member_window_start, place, viewport);
        self.member_window_start = start;
        start
    }
}

/// The rows group `g` takes collapsed, `width` columns wide, with the
/// members the page shows of it.
pub open spec fn shown_group_rows(t: ProxyTree, g: usize, width: usize) -> int {
    collapsed_rows(
        match members_of(t.visible_member_indices@, g) {
            Some(v) => v.len() as int,
            None => t.groups@[g as int].members@.len() as int,
        },
        width as int,
    )
}

/// The rows each shown group takes collapsed, in the order shown.
pub open spec fn shown_heights(t: ProxyTree, width: usize) -> Seq<usize> {
    shown_indices(t).map_values(|g: usize| shown_group_rows(t, g, width) as usize)
}

/// The place of the cursor among the shown groups; the cursor itself when
/// the search leaves its group out.
pub open spec fn shown_cursor_place(t: ProxyTree) -> usize {
    match t.visible_group_indices {
        Some(ix) => match first_index(ix@, t.cursor) {
            Some(i) => i as usize,
            None => t.cursor,
        },
        None => t.cursor,
    }
}

/// The shown groups exist and every count of members fits in a `usize`
/// with room to spare.
pub open spec fn window_measurable(t: ProxyTree) -> bool {
    &&& forall|k: int| 0 <= k < shown_indices(t).len() ==> #[trigger] shown_indices(t)[k] < t.groups@.len()
    &&& forall|g: int| 0 <= g < t.groups@.len() ==> (#[trigger] t.groups@[g]).members@.len() < usize::MAX
    &&& forall|k: int|
        0 <= k < t.visible_member_indices@.len() ==> (#[trigger] t.visible_member_indices@[k]).1@.len()
            < usize::MAX
}

impl ProxyTree {
    /// The first shown group to draw in the collapsed view `width` columns
    /// wide with `viewport` rows; see [`collapsed_start_spec`]. It is kept
    /// for the next draw.
    pub fn settle_group_window(&mut self, width: usize, viewport: usize) -> (r: usize)
        requires
            window_measurable(*old(self)),
        ensures
            collapsed_start_spec(
                shown_heights(*old(self), width),
                old(self).window_start as int,
                shown_cursor_place(*old(self)) as int,
                viewport as int,
                r as int,
            ),
            *final(self) == (ProxyTree { window_start: r, ..*old(self) }),
            shows_its_search(*old(self)) ==> shows_its_search(*final(self)),
    {
        let visible = self.visible_group_indices();
        let ghost shown = visible@;
        let mut heights: Vec<usize> = Vec::new();
        let mut k: usize = 0;
        while k < visible.len()
            invariant
                k <= shown.len(),
                visible@ == shown,
                shown == shown_indices(*self),
                window_measurable(*self),
                heights@ == shown.take(k as int).map_values(|g: usize| shown_group_rows(*self, g, width) as usize),
            decreases shown.len() - k,
        {
            let g = visible[k];
            assert(g == shown_indices(*self)[k as int]);
            let members = self.visible_member_indices(g);
            proof {
                lemma_members_of_entry(self.visible_member_indices@, g);
            }
            let h = self.groups[g].collapsed_height(width, members);
            heights.push(h);
            proof {
                assert(shown.take(k + 1) =~= shown.take(k as int).push(g));
                assert(heights@ =~= shown.take(k + 1).map_values(|g: usize| shown_group_rows(*self, g, width) as usize));
            }
            k = k + 1;
        }
        assert(shown.take(k as int) =~= shown);
        let cursor = self.visible_cursor_pos();
        let start = collapsed_window_start(&heights, self.window_start, cursor, viewport);
        self.window_start = start;
        start
    }
}

/// The focused member is always drawn: it is at or after the first member
/// row, and within the rows available.
pub proof fn member_window_keeps_focus(prev: int, cursor: int, viewport: int)
    requires
        0 <= prev,
        0 <= cursor,
        viewport > 0,
    ensures
        member_start_spec(prev, cursor, viewport) <= cursor < member_start_spec(prev, cursor, viewport) + viewport,
{
}

/// How a shown group is drawn: the one at the cursor is focused, or opened
/// when the page is expanded.
pub open spec fn focus_status(expanded: bool, is_cursor: bool) -> ProxyGroupFocusStatus {
    if !is_cursor {
        ProxyGroupFocusStatus::Unfocused
    } else if expanded {
        ProxyGroupFocusStatus::Expanded
    } else {
        ProxyGroupFocusStatus::Focused
    }
}

pub fn group_focus_status(expanded: bool, is_cursor: bool) -> (r: ProxyGroupFocusStatus)
    ensures
        r == focus_status(expanded, is_cursor),
{
    if !is_cursor {
        ProxyGroupFocusStatus::Unfocused
    } else if expanded {
        ProxyGroupFocusStatus::Expanded
    } else {
        ProxyGroupFocusStatus::Focused
    }
}

/// The group positions a search view shows, as a sequence.
pub open spec fn opt_indices(v: Option<Vec<usize>>) -> Option<Seq<usize>> {
    match v {
        Some(x) => Some(x@),
        None => None,
    }
}

/// The lists a search for `query` shows of `groups`: the groups shown and,
/// for those shown by their members alone, the matching members; nothing
/// narrowed when there is no query or it is empty.
pub open spec fn lists_of_search(groups: Seq<ProxyGroup>, query: Option<String>) -> (
    Option<Seq<usize>>,
    Seq<(usize, Seq<usize>)>,
) {
    match query {
        Some(q) if q@.len() > 0 => {
            let lq = unicode_lower(q@);
            (Some(shown_groups(groups, lq, groups.len() as int)), shown_members(groups, lq, groups.len() as int))
        },
        _ => (None, Seq::empty()),
    }
}

/// The page shows what its search finds.
pub open spec fn shows_its_search(t: ProxyTree) -> bool {
    (opt_indices(t.visible_group_indices), member_lists(t.visible_member_indices@)) == lists_of_search(
        t.groups@,
        t.search_query,
    )
}

/// Two lists of groups with the same names and members, group by group.
pub open spec fn same_names(a: Seq<ProxyGroup>, b: Seq<ProxyGroup>) -> bool {
    &&& a.len() == b.len()
    &&& forall|i: int| 0 <= i < a.len() ==> (#[trigger] a[i]).name == b[i].name && a[i].members == b[i].members
}

proof fn lemma_same_names_same_lists(a: Seq<ProxyGroup>, b: Seq<ProxyGroup>, q: Seq<char>, n: int)
    requires
        same_names(a, b),
        n <= a.len(),
    ensures
        shown_groups(a, q, n) == shown_groups(b, q, n),
        shown_members(a, q, n) == shown_members(b, q, n),
    decreases n,
{
    if n > 0 {
        lemma_same_names_same_lists(a, b, q, n - 1);
        assert(a[n - 1].name == b[n - 1].name && a[n - 1].members == b[n - 1].members);
    }
}

/// Moving cursors keeps what the search shows.
proof fn lemma_same_search(old: ProxyTree, new: ProxyTree)
    requires
        same_names(old.groups@, new.groups@),
        new.search_query == old.search_query,
        new.visible_group_indices == old.visible_group_indices,
        new.visible_member_indices == old.visible_member_indices,
    ensures
        shows_its_search(old) ==> shows_its_search(new),
{
    match old.search_query {
        Some(q) if q@.len() > 0 => {
            lemma_same_names_same_lists(old.groups@, new.groups@, unicode_lower(q@), old.groups@.len() as int);
        },
        _ => {},
    }
}

proof fn lemma_searched_shows(old: ProxyTree, new: ProxyTree)
    requires
        searched_tree(old, new),
    ensures
        same_names(old.groups@, new.groups@),
        shows_its_search(new),
{
    match old.search_query {
        Some(q) if q@.len() > 0 => {
            let lq = unicode_lower(q@);
            let shown = shown_groups(old.groups@, lq, old.groups@.len() as int);
            if shown.len() > 0 {
                let f = shown[0] as int;
                assert(old.groups@.len() == old.groups.len());
                lemma_shown_groups(old.groups@, lq, old.groups@.len() as int);
                assert(0 <= f < old.groups@.len());
                if !group_named(old.groups@[f], lq) {
                    assert forall|i: int| 0 <= i < old.groups@.len() implies (#[trigger] old.groups@[i]).name
                        == new.groups@[i].name && old.groups@[i].members == new.groups@[i].members by {
                        if i == f {
                            assert(new.groups@[i] == ProxyGroup {
                                cursor: member_hits(old.groups@[f], lq)[0],
                                ..old.groups@[f]
                            });
                        } else {
                            assert(new.groups@[i] == old.groups@[i]);
                        }
                    }
                }
            }
            lemma_same_names_same_lists(old.groups@, new.groups@, lq, old.groups@.len() as int);
        },
        _ => {
            assert(member_lists(new.visible_member_indices@) =~= Seq::<(usize, Seq<usize>)>::empty());
        },
    }
}

/// Typing a character into a search and deleting it again gives the search
/// back: the same query, the same groups shown and the same members shown.
/// The states are those that [`ProxyTree::input_search_char`] and then
/// [`ProxyTree::backspace_search`] leave while a search is open; `t0` shows
/// what its search finds, which every function of [`ProxyTree`] keeps and
/// every constructor establishes, and which the interface's well-formedness
/// includes.
pub proof fn backspace_undoes_typed_char(t0: ProxyTree, t1: ProxyTree, t2: ProxyTree, c: char)
    requires
        t0.search_query is Some,
        shows_its_search(t0),
        t1.search_query matches Some(q1) && q1@ == t0.search_query->0@.push(c),
        searched_tree(ProxyTree { search_query: t1.search_query, ..t0 }, t1),
        t2.search_query matches Some(q2) && q2@ == t1.search_query->0@.drop_last(),
        searched_tree(ProxyTree { search_query: t2.search_query, ..t1 }, t2),
    ensures
        t2.search_query->0@ == t0.search_query->0@,
        opt_indices(t2.visible_group_indices) == opt_indices(t0.visible_group_indices),
        member_lists(t2.visible_member_indices@) == member_lists(t0.visible_member_indices@),
{
    let q0 = t0.search_query->0@;
    assert(q0.push(c).drop_last() =~= q0);
    lemma_searched_shows(ProxyTree { search_query: t1.search_query, ..t0 }, t1);
    lemma_searched_shows(ProxyTree { search_query: t2.search_query, ..t1 }, t2);
    assert(same_names(t0.groups@, t2.groups@)) by {
        assert forall|i: int| 0 <= i < t0.groups@.len() implies (#[trigger] t0.groups@[i]).name == t2.groups@[i].name
            && t0.groups@[i].members == t2.groups@[i].members by {
            assert(t1.groups@[i].name == t2.groups@[i].name);
        }
    }
    if q0.len() > 0 {
        lemma_same_names_same_lists(t0.groups@, t2.groups@, unicode_lower(q0), t0.groups@.len() as int);
    }
}

} // verus!
