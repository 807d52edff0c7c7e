//! The rows that draw a proxy group: a header with the group's name, type and
//! member count, then either one row per member (opened group) or the
//! members' latency badges wrapped into rows (collapsed group).

use vstd::prelude::*;

use crate::model::{is_normal, ProxyType};
use crate::proxy::{collapsed_rows, ProxyGroup, ProxyGroupFocusStatus, ProxyItem, FOCUSED_INDICATOR_WIDTH};
use crate::text::{concat, decimal, owned, usize_to_decimal};

verus! {

/// How fast a member answered: not measured or failed, up to 200 ms, up to
/// 400 ms, slower.
#[derive(Debug, Clone, Copy, PartialEq, Eq)]
pub enum LatencyLevel {
    Unknown,
    Low,
    Mid,
    High,
}

/// The badge of a member in a collapsed group.
#[derive(Debug, Clone, Copy, PartialEq, Eq)]
pub enum Badge {
    Latency(LatencyLevel),
    /// A member that is not a proxy of its own and has no measurement.
    NotProxy,
}

/// The marker at the start of a row.
#[derive(Debug, Clone, Copy, PartialEq, Eq)]
pub enum RowMarker {
    Focused,
    Unfocused,
    /// The member under the cursor of an opened group.
    MemberFocused,
    Member,
}

/// How a member's name is styled in an opened group.
#[derive(Debug, Clone, Copy, PartialEq, Eq)]
pub enum NameStyle {
    /// The member the group uses.
    Current,
    /// The member under the cursor.
    Pointed,
    Plain,
}

/// The latency column of a member's row.
#[derive(Debug, Clone, Copy, PartialEq, Eq)]
pub enum DelayCell {
    /// A measured latency in milliseconds, coloured by its level.
    Millis(u64),
    /// The sign for "no latency".
    NoLatency,
    Blank,
}

/// A row of a drawn group.
#[derive(Debug, Clone, PartialEq, Eq)]
pub enum GroupRow {
    Header { marker: RowMarker, name: String, proxy_type: ProxyType, count: String },
    Member { marker: RowMarker, name: String, style: NameStyle, proxy_type: ProxyType, delay: DelayCell },
    /// Badges after an unfocused marker.
    Badges(Vec<Badge>),
}

/// A row with its strings and lists as sequences.
pub enum GroupRowView {
    Header { marker: RowMarker, name: Seq<char>, proxy_type: ProxyType, count: Seq<char> },
    Member { marker: RowMarker, name: Seq<char>, style: NameStyle, proxy_type: ProxyType, delay: DelayCell },
    Badges(Seq<Badge>),
}

/// The row as sequences.
pub open spec fn row_view(r: GroupRow) -> GroupRowView {
    match r {
        GroupRow::Header { marker, name, proxy_type, count } => GroupRowView::Header {
            marker,
            name: name@,
            proxy_type,
            count: count@,
        },
        GroupRow::Member { marker, name, style, proxy_type, delay } => GroupRowView::Member {
            marker,
            name: name@,
            style,
            proxy_type,
            delay,
        },
        GroupRow::Badges(b) => GroupRowView::Badges(b@),
    }
}

/// Each row as sequences.
pub open spec fn rows_view(s: Seq<GroupRow>) -> Seq<GroupRowView> {
    s.map_values(|r: GroupRow| row_view(r))
}

pub open spec fn latency_level(delay: u64) -> LatencyLevel {
    if delay == 0 {
        LatencyLevel::Unknown
    } else if delay <= 200 {
        LatencyLevel::Low
    } else if delay <= 400 {
        LatencyLevel::Mid
    } else {
        LatencyLevel::High
    }
}

/// The badge of a member: its latency level where it was measured, unknown
/// for an unmeasured proxy, and a mark of its own for anything else.
pub open spec fn badge_of(m: ProxyItem) -> Badge {
    match m.history {
        Some(h) => Badge::Latency(latency_level(h.delay)),
        None => if is_normal(m.proxy_type) {
            Badge::Latency(LatencyLevel::Unknown)
        } else {
            Badge::NotProxy
        },
    }
}

/// The latency column of a member.
pub open spec fn delay_of(m: ProxyItem) -> DelayCell {
    match m.history {
        Some(h) => if h.delay > 0 {
            DelayCell::Millis(h.delay)
        } else {
            DelayCell::NoLatency
        },
        None => if !is_normal(m.proxy_type) {
            DelayCell::Blank
        } else {
            DelayCell::NoLatency
        },
    }
}

/// The members a group shows: those of `visible`, or all of them.
pub open spec fn shown_indices(g: ProxyGroup, visible: Option<Seq<usize>>) -> Seq<usize> {
    match visible {
        Some(v) => v,
        None => Seq::new(g.members@.len(), |i: int| i as usize),
    }
}

/// The first place from `k` on where `ix` holds `c`.
pub open spec fn place_from(ix: Seq<usize>, c: usize, k: int) -> Option<int>
    decreases ix.len() - k,
{
    if k < 0 || k >= ix.len() {
        None
    } else if ix[k] == c {
        Some(k)
    } else {
        place_from(ix, c, k + 1)
    }
}

/// The place of the cursor among the shown members; the first place when
/// it is not shown.
pub open spec fn cursor_place(ix: Seq<usize>, c: usize) -> int {
    match place_from(ix, c, 0) {
        Some(k) => k,
        None => 0,
    }
}

/// The header's count: the cursor's place and the number shown for an
/// opened group, the number shown otherwise.
pub open spec fn count_text(ix: Seq<usize>, c: usize, status: ProxyGroupFocusStatus) -> Seq<char> {
    if status == ProxyGroupFocusStatus::Expanded {
        decimal((cursor_place(ix, c) + 1) as nat) + "/"@ + decimal(ix.len())
    } else {
        decimal(ix.len())
    }
}

/// The header row.
pub open spec fn header_row(g: ProxyGroup, ix: Seq<usize>, status: ProxyGroupFocusStatus) -> GroupRowView {
    GroupRowView::Header {
        marker: if status == ProxyGroupFocusStatus::Focused {
            RowMarker::Focused
        } else {
            RowMarker::Unfocused
        },
        name: g.name@,
        proxy_type: g.proxy_type,
        count: count_text(ix, g.cursor, status),
    }
}

/// The row of member `i` in an opened group.
pub open spec fn member_row(g: ProxyGroup, i: usize) -> GroupRowView {
    let m = g.members@[i as int];
    GroupRowView::Member {
        marker: if g.cursor == i {
            RowMarker::MemberFocused
        } else {
            RowMarker::Member
        },
        name: m.name@,
        style: if g.current == Some(i) {
            NameStyle::Current
        } else if g.cursor == i {
            NameStyle::Pointed
        } else {
            NameStyle::Plain
        },
        proxy_type: m.proxy_type,
        delay: delay_of(m),
    }
}

/// `badges` cut into rows of `per` (the last one may be shorter).
pub open spec fn badge_rows(badges: Seq<Badge>, per: nat) -> Seq<Seq<Badge>>
    decreases badges.len(),
{
    if badges.len() == 0 || per == 0 {
        Seq::empty()
    } else if badges.len() <= per {
        seq![badges]
    } else {
        seq![badges.take(per as int)] + badge_rows(badges.skip(per as int), per)
    }
}

/// Badges per row of a collapsed group `width` columns wide: two columns
/// each, after the focus marker and a margin.
pub open spec fn badges_per_row(width: usize) -> nat {
    if width >= FOCUSED_INDICATOR_WIDTH + 2 {
        ((width - (FOCUSED_INDICATOR_WIDTH + 2)) / 2) as nat
    } else {
        0
    }
}

/// The rows of a group drawn `width` columns wide with the members `ix`,
/// opened ones from the `skip`-th shown member on.
pub open spec fn group_rows(
    g: ProxyGroup,
    width: usize,
    status: ProxyGroupFocusStatus,
    ix: Seq<usize>,
    skip: usize,
) -> Seq<GroupRowView> {
    seq![header_row(g, ix, status)] + if status == ProxyGroupFocusStatus::Expanded {
        ix.skip(if skip <= ix.len() { skip as int } else { ix.len() as int }).map_values(
            |i: usize| member_row(g, i),
        )
    } else {
        badge_rows(ix.map_values(|i: usize| badge_of(g.members@[i as int])), badges_per_row(width)).map_values(
            |b: Seq<Badge>| GroupRowView::Badges(b),
        )
    }
}

/// The shown members exist.
pub open spec fn indices_in(ix: Seq<usize>, n: nat) -> bool {
    forall|k: int| 0 <= k < ix.len() ==> #[trigger] ix[k] < n
}

proof fn lemma_place_step(ix: Seq<usize>, c: usize, k: int)
    requires
        0 <= k < ix.len(),
        ix[k] != c,
    ensures
        place_from(ix, c, k) == place_from(ix, c, k + 1),
{
}

proof fn lemma_place_bound(ix: Seq<usize>, c: usize, k: int)
    requires
        0 <= k,
    ensures
        place_from(ix, c, k) matches Some(p) ==> k <= p < ix.len(),
    decreases ix.len() - k,
{
    if k < ix.len() && ix[k] != c {
        lemma_place_bound(ix, c, k + 1);
    }
}

proof fn lemma_badge_rows_len(badges: Seq<Badge>, per: nat)
    requires
        per > 0,
    ensures
        badge_rows(badges, per).len() == (badges.len() + per - 1) / (per as int),
    decreases badges.len(),
{
    let n = badges.len() as int;
    let p = per as int;
    if n == 0 {
        assert((p - 1) / p == 0) by (nonlinear_arith)
            requires
                p > 0,
        ;
    } else if n <= p {
        assert((n + p - 1) / p == 1) by (nonlinear_arith)
            requires
                p > 0,
                1 <= n <= p,
        ;
    } else {
        lemma_badge_rows_len(badges.skip(p), per);
        assert((n - p + p - 1) / p + 1 == (n + p - 1) / p) by (nonlinear_arith)
            requires
                p > 0,
                n > p,
        ;
    }
}

/// A collapsed group is drawn in as many rows as
/// [`ProxyGroup::collapsed_height`] gives for the same members and width:
/// a header and the badges wrapped into rows.
pub proof fn collapsed_rows_match_height(
    g: ProxyGroup,
    width: usize,
    status: ProxyGroupFocusStatus,
    visible: Option<Seq<usize>>,
    skip: usize,
)
    requires
        status != ProxyGroupFocusStatus::Expanded,
        badges_per_row(width) > 0,
    ensures
        group_rows(g, width, status, shown_indices(g, visible), skip).len() == collapsed_rows(
            match visible {
                Some(v) => v.len() as int,
                None => g.members@.len() as int,
            },
            width as int,
        ),
{
    let ix = shown_indices(g, visible);
    let badges = ix.map_values(|i: usize| badge_of(g.members@[i as int]));
    lemma_badge_rows_len(badges, badges_per_row(width));
}

/// The badge of a member.
fn member_badge(m: &ProxyItem) -> (r: Badge)
    ensures
        r == badge_of(*m),
{
    match &m.history {
        Some(h) => {
            let level = if h.delay == 0 {
                LatencyLevel::Unknown
            } else if h.delay <= 200 {
                LatencyLevel::Low
            } else if h.delay <= 400 {
                LatencyLevel::Mid
            } else {
                LatencyLevel::High
            };
            Badge::Latency(level)
        },
        None => if m.proxy_type.is_normal() {
            Badge::Latency(LatencyLevel::Unknown)
        } else {
            Badge::NotProxy
        },
    }
}

/// The latency column of a member.
fn member_delay(m: &ProxyItem) -> (r: DelayCell)
    ensures
        r == delay_of(*m),
{
    match &m.history {
        Some(h) => if h.delay > 0 {
            DelayCell::Millis(h.delay)
        } else {
            DelayCell::NoLatency
        },
        None => if !m.proxy_type.is_normal() {
            DelayCell::Blank
        } else {
            DelayCell::NoLatency
        },
    }
}

impl ProxyGroup {
    /// The badges of all members, in order.
    pub fn get_summary_widget(&self) -> (r: Vec<Badge>)
        ensures
            r@ == self.members@.map_values(|m: ProxyItem| badge_of(m)),
    {
        let mut r: Vec<Badge> = Vec::new();
        let mut i: usize = 0;
        while i < self.members.len()
            invariant
                i <= self.members@.len(),
                r@ == self.members@.take(i as int).map_values(|m: ProxyItem| badge_of(m)),
            decreases self.members@.len() - i,
        {
            r.push(member_badge(&self.members[i]));
            assert(self.members@.take(i + 1) =~= self.members@.take(i as int).push(self.members@[i as int]));
            assert(r@ =~= self.members@.take(i + 1).map_values(|m: ProxyItem| badge_of(m)));
            i = i + 1;
        }
        assert(self.members@.take(i as int) =~= self.members@);
        r
    }

    /// The rows of the group with all members shown.
    pub fn get_widget(&self, width: usize, status: ProxyGroupFocusStatus) -> (r: Vec<GroupRow>)
        requires
            status == ProxyGroupFocusStatus::Expanded || badges_per_row(width) > 0,
            self.members@.len() < usize::MAX,
        ensures
            rows_view(r@) == group_rows(*self, width, status, shown_indices(*self, None), 0),
    {
        self.get_filtered_widget(width, status, None, 0)
    }

    /// The rows of the group drawn `width` columns wide, showing the members
    /// `visible_member_indices` or all of them; an opened group leaves out
    /// its first `member_skip` shown members. A collapsed group needs room
    /// for at least one badge per row.
    pub fn get_filtered_widget(
        &self,
        width: usize,
        status: ProxyGroupFocusStatus,
        visible_member_indices: Option<&[usize]>,
        member_skip: usize,
    ) -> (r: Vec<GroupRow>)
        requires
            status == ProxyGroupFocusStatus::Expanded || badges_per_row(width) > 0,
            self.members@.len() < usize::MAX,
            match visible_member_indices {
                Some(v) => indices_in(v@, self.members@.len()) && v@.len() < usize::MAX,
                None => true,
            },
        ensures
            rows_view(r@) == group_rows(
                *self,
                width,
                status,
                shown_indices(
                    *self,
                    match visible_member_indices {
                        Some(v) => Some(v@),
                        None => None,
                    },
                ),
                member_skip,
            ),
    {
        let ghost vis = match visible_member_indices {
            Some(v) => Some(v@),
            None => None,
        };
        let mut ix: Vec<usize> = Vec::new();
        match visible_member_indices {
            Some(v) => {
                let mut k: usize = 0;
                while k < v.len()
                    invariant
                        k <= v@.len(),
                        ix@ == v@.take(k as int),
                    decreases v@.len() - k,
                {
                    ix.push(v[k]);
                    assert(v@.take(k + 1) =~= v@.take(k as int).push(v@[k as int]));
                    k = k + 1;
                }
                assert(v@.take(k as int) =~= v@);
            },
            None => {
                let mut k: usize = 0;
                while k < self.members.len()
                    invariant
                        k <= self.members@.len(),
                        ix@ == Seq::new(k as nat, |i: int| i as usize),
                    decreases self.members@.len() - k,
                {
                    ix.push(k);
                    assert(ix@ =~= Seq::new((k + 1) as nat, |i: int| i as usize));
                    k = k + 1;
                }
            },
        }
        let ghost ixs = ix@;
        assert(ixs == shown_indices(*self, vis));
        assert(indices_in(ixs, self.members@.len()));
        let count = ix.len();
        // the place of the cursor among the shown members
        let mut place: usize = 0;
        let mut found = false;
        while place < count && !found
            invariant
                place <= count == ixs.len(),
                ix@ == ixs,
                found ==> place < count && ixs[place as int] == self.cursor && place_from(ixs, self.cursor, 0)
                    == Some(place as int),
                !found ==> place_from(ixs, self.cursor, 0) == place_from(ixs, self.cursor, place as int),
            decreases count - place + if found { 0int } else { 1int },
        {
            if ix[place] == self.cursor {
                found = true;
            } else {
                proof {
                    lemma_place_step(ixs, self.cursor, place as int);
                }
                place = place + 1;
            }
        }
        if !found {
            place = 0;
        }
        proof {
            lemma_place_bound(ixs, self.cursor, 0);
            assert(place as int == cursor_place(ixs, self.cursor));
        }
        let count_text = if status == ProxyGroupFocusStatus::Expanded {
            let first = concat(usize_to_decimal(place + 1).as_str(), "/");
            concat(first.as_str(), usize_to_decimal(count).as_str())
        } else {
            usize_to_decimal(count)
        };
        let marker = if status == ProxyGroupFocusStatus::Focused {
            RowMarker::Focused
        } else {
            RowMarker::Unfocused
        };
        let mut rows: Vec<GroupRow> = Vec::new();
        rows.push(GroupRow::Header { marker, name: owned(self.name.as_str()), proxy_type: self.proxy_type, count: count_text });
        let ghost head = rows_view(rows@);
        assert(head =~= seq![header_row(*self, ixs, status)]);
        if status == ProxyGroupFocusStatus::Expanded {
            let start = if member_skip <= count {
                member_skip
            } else {
                count
            };
            let ghost rest = ixs.skip(start as int);
            let mut j = start;
            while j < count
                invariant
                    start <= j <= count == ixs.len(),
                    ix@ == ixs,
                    rest == ixs.skip(start as int),
                    indices_in(ixs, self.members@.len()),
                    rows_view(rows@) == head + rest.take(j - start).map_values(|i: usize| member_row(*self, i)),
                decreases count - j,
            {
                let mi = ix[j];
                let m = &self.members[mi];
                let marker = if self.cursor == mi {
                    RowMarker::MemberFocused
                } else {
                    RowMarker::Member
                };
                let is_current = match self.current {
                    Some(c) => c == mi,
                    None => false,
                };
                let style = if is_current {
                    NameStyle::Current
                } else if self.cursor == mi {
                    NameStyle::Pointed
                } else {
                    NameStyle::Plain
                };
                let ghost before = rows_view(rows@);
                rows.push(GroupRow::Member {
                    marker,
                    name: owned(m.name.as_str()),
                    style,
                    proxy_type: m.proxy_type,
                    delay: member_delay(m),
                });
                proof {
                    assert(rows_view(rows@) =~= before.push(member_row(*self, mi)));
                    assert(rest[j - start] == mi);
                    assert(rest.take(j + 1 - start) =~= rest.take(j - start).push(mi));
                    assert(rest.take(j + 1 - start).map_values(|i: usize| member_row(*self, i)) =~= rest.take(
                        j - start,
                    ).map_values(|i: usize| member_row(*self, i)).push(member_row(*self, mi)));
                }
                j = j + 1;
            }
            assert(rest.take(count - start) =~= rest);
        } else {
            let per = (width - (FOCUSED_INDICATOR_WIDTH + 2)) / 2;
            let mut badges: Vec<Badge> = Vec::new();
            let mut k: usize = 0;
            while k < count
                invariant
                    k <= count == ixs.len(),
                    ix@ == ixs,
                    indices_in(ixs, self.members@.len()),
                    badges@ == ixs.take(k as int).map_values(|i: usize| badge_of(self.members@[i as int])),
                decreases count - k,
            {
                badges.push(member_badge(&self.members[ix[k]]));
                assert(ixs.take(k + 1) =~= ixs.take(k as int).push(ixs[k as int]));
                assert(badges@ =~= ixs.take(k + 1).map_values(|i: usize| badge_of(self.members@[i as int])));
                k = k + 1;
            }
            assert(ixs.take(count as int) =~= ixs);
            let ghost all = badges@;
            let ghost pn = per as nat;
            let mut s: usize = 0;
            assert(all.skip(0) =~= all);
            assert(rows_view(rows@) == head);
            while s < count
                invariant
                    per > 0,
                    pn == per as nat,
                    s <= count == all.len(),
                    badges@ == all,
                    rows_view(rows@) + badge_rows(all.skip(s as int), pn).map_values(
                        |b: Seq<Badge>| GroupRowView::Badges(b),
                    ) == head + badge_rows(all, pn).map_values(|b: Seq<Badge>| GroupRowView::Badges(b)),
                decreases count - s,
            {
                let end = if count - s <= per {
                    count
                } else {
                    s + per
                };
                let mut chunk: Vec<Badge> = Vec::new();
                let mut t = s;
                while t < end
                    invariant
                        s <= t <= end <= count == all.len(),
                        badges@ == all,
                        chunk@ == all.subrange(s as int, t as int),
                    decreases end - t,
                {
                    chunk.push(badges[t]);
                    assert(all.subrange(s as int, t + 1) =~= all.subrange(s as int, t as int).push(all[t as int]));
                    t = t + 1;
                }
                let ghost before = rows_view(rows@);
                let ghost tail = all.skip(s as int);
                rows.push(GroupRow::Badges(chunk));
                proof {
                    assert(rows_view(rows@) =~= before.push(GroupRowView::Badges(all.subrange(s as int, end as int))));
                    if count - s <= per {
                        assert(tail =~= all.subrange(s as int, end as int));
                        assert(badge_rows(tail, pn) == seq![tail]);
                        assert(all.skip(end as int) =~= Seq::<Badge>::empty());
                        assert(badge_rows(all.skip(end as int), pn) =~= Seq::<Seq<Badge>>::empty());
                    } else {
                        assert(tail.take(per as int) =~= all.subrange(s as int, end as int));
                        assert(tail.skip(per as int) =~= all.skip(end as int));
                        assert(badge_rows(tail, pn) == seq![tail.take(per as int)] + badge_rows(tail.skip(per as int), pn));
                    }
                    let f = |b: Seq<Badge>| GroupRowView::Badges(b);
                    assert(badge_rows(tail, pn) =~= seq![all.subrange(s as int, end as int)] + badge_rows(all.skip(end as int), pn));
                    assert(badge_rows(tail, pn).map_values(f) =~= seq![GroupRowView::Badges(all.subrange(s as int, end as int))]
                        + badge_rows(all.skip(end as int), pn).map_values(f));
                    assert(rows_view(rows@) + badge_rows(all.skip(end as int), pn).map_values(f) =~= before
                        + badge_rows(tail, pn).map_values(f));
                }
                s = end;
            }
            proof {
                assert(all.skip(count as int) =~= Seq::<Badge>::empty());
                assert(badge_rows(all.skip(count as int), pn) =~= Seq::<Seq<Badge>>::empty());
                assert(badge_rows(all.skip(count as int), pn).map_values(|b: Seq<Badge>| GroupRowView::Badges(b))
                    =~= Seq::<GroupRowView>::empty());
                assert(rows_view(rows@) =~= rows_view(rows@) + Seq::<GroupRowView>::empty());
            }
        }
        rows
    }
}

} // verus!
