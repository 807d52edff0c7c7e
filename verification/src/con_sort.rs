//! The orders of the connection page: a field and a direction, cycled
//! through a fixed list, and the stable sort of the connections by them.

use vstd::prelude::*;

use crate::model::{ConnectionWithSpeed, RuleType};
use crate::proxy::{lemma_lex_asymmetric, lex_less, str_less};
use crate::text::concat;

verus! {

/// The field connections are ordered by.
#[derive(Debug, Clone, Copy, PartialEq, Eq, Structural)]
pub enum ConSortBy {
    Host,
    Down,
    Up,
    DownSpeed,
    UpSpeed,
    Chains,
    Rule,
    Time,
    Src,
    Dest,
    Type,
}

/// Smallest first, or largest first.
#[derive(Debug, Clone, Copy, PartialEq, Eq, Structural)]
pub enum SortOrder {
    Ascendant,
    Descendant,
}

/// An order of the connection page.
#[derive(Debug, Clone, Copy, PartialEq, Eq, Structural)]
pub struct ConSort {
    pub by: ConSortBy,
    pub order: SortOrder,
}

/// The orders in the sequence the page cycles through them.
pub open spec fn con_sorts() -> Seq<ConSort> {
    let a = SortOrder::Ascendant;
    let d = SortOrder::Descendant;
    seq![
        ConSort { by: ConSortBy::Time, order: d },
        ConSort { by: ConSortBy::Host, order: a },
        ConSort { by: ConSortBy::Host, order: d },
        ConSort { by: ConSortBy::Down, order: d },
        ConSort { by: ConSortBy::Down, order: a },
        ConSort { by: ConSortBy::Up, order: d },
        ConSort { by: ConSortBy::Up, order: a },
        ConSort { by: ConSortBy::DownSpeed, order: d },
        ConSort { by: ConSortBy::DownSpeed, order: a },
        ConSort { by: ConSortBy::UpSpeed, order: d },
        ConSort { by: ConSortBy::UpSpeed, order: a },
        ConSort { by: ConSortBy::Chains, order: a },
        ConSort { by: ConSortBy::Chains, order: d },
        ConSort { by: ConSortBy::Rule, order: a },
        ConSort { by: ConSortBy::Rule, order: d },
        ConSort { by: ConSortBy::Src, order: a },
        ConSort { by: ConSortBy::Src, order: d },
        ConSort { by: ConSortBy::Dest, order: a },
        ConSort { by: ConSortBy::Dest, order: d },
        ConSort { by: ConSortBy::Type, order: a },
        ConSort { by: ConSortBy::Type, order: d },
        ConSort { by: ConSortBy::Time, order: a },
    ]
}

/// Where an order stands in [`con_sorts`].
pub open spec fn sort_index(s: ConSort) -> int {
    let i: int = match s.by {
        ConSortBy::Time => 0,
        ConSortBy::Host => 1,
        ConSortBy::Down => 3,
        ConSortBy::Up => 5,
        ConSortBy::DownSpeed => 7,
        ConSortBy::UpSpeed => 9,
        ConSortBy::Chains => 11,
        ConSortBy::Rule => 13,
        ConSortBy::Src => 15,
        ConSortBy::Dest => 17,
        ConSortBy::Type => 19,
    };
    match (s.by, s.order) {
        (ConSortBy::Time, SortOrder::Ascendant) => 21,
        (ConSortBy::Time, SortOrder::Descendant) => 0,
        (ConSortBy::Down, SortOrder::Ascendant) => 4,
        (ConSortBy::Up, SortOrder::Ascendant) => 6,
        (ConSortBy::DownSpeed, SortOrder::Ascendant) => 8,
        (ConSortBy::UpSpeed, SortOrder::Ascendant) => 10,
        (_, SortOrder::Descendant) => if s.by == ConSortBy::Down || s.by == ConSortBy::Up
            || s.by == ConSortBy::DownSpeed || s.by == ConSortBy::UpSpeed {
            i
        } else {
            i + 1
        },
        (_, SortOrder::Ascendant) => i,
    }
}

/// Every order has its place in the cycle.
pub proof fn every_sort_is_listed(s: ConSort)
    ensures
        0 <= sort_index(s) < con_sorts().len(),
        con_sorts()[sort_index(s)] == s,
{
}

/// The position of `s` in the cycle, as a number.
fn position_of(s: ConSort) -> (r: usize)
    ensures
        r == sort_index(s),
{
    let i: usize = match s.by {
        ConSortBy::Time => 0,
        ConSortBy::Host => 1,
        ConSortBy::Down => 3,
        ConSortBy::Up => 5,
        ConSortBy::DownSpeed => 7,
        ConSortBy::UpSpeed => 9,
        ConSortBy::Chains => 11,
        ConSortBy::Rule => 13,
        ConSortBy::Src => 15,
        ConSortBy::Dest => 17,
        ConSortBy::Type => 19,
    };
    match (s.by, s.order) {
        (ConSortBy::Time, SortOrder::Ascendant) => 21,
        (ConSortBy::Time, SortOrder::Descendant) => 0,
        (ConSortBy::Down, SortOrder::Ascendant) => 4,
        (ConSortBy::Up, SortOrder::Ascendant) => 6,
        (ConSortBy::DownSpeed, SortOrder::Ascendant) => 8,
        (ConSortBy::UpSpeed, SortOrder::Ascendant) => 10,
        (ConSortBy::Down, SortOrder::Descendant) => i,
        (ConSortBy::Up, SortOrder::Descendant) => i,
        (ConSortBy::DownSpeed, SortOrder::Descendant) => i,
        (ConSortBy::UpSpeed, SortOrder::Descendant) => i,
        (_, SortOrder::Descendant) => i + 1,
        (_, SortOrder::Ascendant) => i,
    }
}

/// The order at position `i` of the cycle.
fn sort_at(i: usize) -> (r: ConSort)
    requires
        i < 22,
    ensures
        r == con_sorts()[i as int],
{
    let a = SortOrder::Ascendant;
    let d = SortOrder::Descendant;
    let all = [
        ConSort { by: ConSortBy::Time, order: d },
        ConSort { by: ConSortBy::Host, order: a },
        ConSort { by: ConSortBy::Host, order: d },
        ConSort { by: ConSortBy::Down, order: d },
        ConSort { by: ConSortBy::Down, order: a },
        ConSort { by: ConSortBy::Up, order: d },
        ConSort { by: ConSortBy::Up, order: a },
        ConSort { by: ConSortBy::DownSpeed, order: d },
        ConSort { by: ConSortBy::DownSpeed, order: a },
        ConSort { by: ConSortBy::UpSpeed, order: d },
        ConSort { by: ConSortBy::UpSpeed, order: a },
        ConSort { by: ConSortBy::Chains, order: a },
        ConSort { by: ConSortBy::Chains, order: d },
        ConSort { by: ConSortBy::Rule, order: a },
        ConSort { by: ConSortBy::Rule, order: d },
        ConSort { by: ConSortBy::Src, order: a },
        ConSort { by: ConSortBy::Src, order: d },
        ConSort { by: ConSortBy::Dest, order: a },
        ConSort { by: ConSortBy::Dest, order: d },
        ConSort { by: ConSortBy::Type, order: a },
        ConSort { by: ConSortBy::Type, order: d },
        ConSort { by: ConSortBy::Time, order: a },
    ];
    assert(all@ =~= con_sorts());
    all[i]
}

/// The name of a field, as the page shows it.
pub open spec fn by_name(by: ConSortBy) -> Seq<char> {
    match by {
        ConSortBy::Host => "Host"@,
        ConSortBy::Down => "Down"@,
        ConSortBy::Up => "Up"@,
        ConSortBy::DownSpeed => "DownSpeed"@,
        ConSortBy::UpSpeed => "UpSpeed"@,
        ConSortBy::Chains => "Chains"@,
        ConSortBy::Rule => "Rule"@,
        ConSortBy::Time => "Time"@,
        ConSortBy::Src => "Src"@,
        ConSortBy::Dest => "Dest"@,
        ConSortBy::Type => "Type"@,
    }
}

impl ConSort {
    /// The order the page starts with: newest first.
    pub fn first() -> (r: ConSort)
        ensures
            r == con_sorts()[0],
    {
        ConSort { by: ConSortBy::Time, order: SortOrder::Descendant }
    }

    /// The next order of the cycle, from the last back to the first.
    pub fn next_sort(self) -> (r: ConSort)
        ensures
            r == con_sorts()[(sort_index(self) + 1) % 22],
    {
        let i = position_of(self);
        sort_at((i + 1) % 22)
    }

    /// The previous order of the cycle, from the first back to the last.
    pub fn prev_sort(self) -> (r: ConSort)
        ensures
            r == con_sorts()[(sort_index(self) + 21) % 22],
    {
        let i = position_of(self);
        sort_at((i + 21) % 22)
    }

    /// The label of the order: the field and an arrow, up for smallest
    /// first.
    pub fn label(self) -> (r: String)
        ensures
            r@ == by_name(self.by) + (match self.order {
                SortOrder::Ascendant => " ▲"@,
                SortOrder::Descendant => " ▼"@,
            }),
    {
        let name = match self.by {
            ConSortBy::Host => "Host",
            ConSortBy::Down => "Down",
            ConSortBy::Up => "Up",
            ConSortBy::DownSpeed => "DownSpeed",
            ConSortBy::UpSpeed => "UpSpeed",
            ConSortBy::Chains => "Chains",
            ConSortBy::Rule => "Rule",
            ConSortBy::Time => "Time",
            ConSortBy::Src => "Src",
            ConSortBy::Dest => "Dest",
            ConSortBy::Type => "Type",
        };
        match self.order {
            SortOrder::Ascendant => concat(name, " ▲"),
            SortOrder::Descendant => concat(name, " ▼"),
        }
    }
}

/// Stepping forward and then back lands on the order one started from.
pub proof fn prev_undoes_next_sort(s: ConSort)
    ensures
        con_sorts()[(sort_index(con_sorts()[(sort_index(s) + 1) % 22]) + 21) % 22] == s,
{
    every_sort_is_listed(s);
    let n = con_sorts()[(sort_index(s) + 1) % 22];
    assert(sort_index(n) == (sort_index(s) + 1) % 22);
}

/// The position of a rule type in its declaration, which orders rule types.
pub open spec fn rule_rank(r: RuleType) -> int {
    match r {
        RuleType::Domain => 0,
        RuleType::DomainSuffix => 1,
        RuleType::DomainKeyword => 2,
        RuleType::GeoIP => 3,
        RuleType::IPCIDR => 4,
        RuleType::SrcIPCIDR => 5,
        RuleType::SrcPort => 6,
        RuleType::DstPort => 7,
        RuleType::Process => 8,
        RuleType::Match => 9,
        RuleType::Direct => 10,
        RuleType::Reject => 11,
        RuleType::Unknown => 12,
    }
}

fn rule_rank_of(r: RuleType) -> (n: u8)
    ensures
        n == rule_rank(r),
{
    match r {
        RuleType::Domain => 0,
        RuleType::DomainSuffix => 1,
        RuleType::DomainKeyword => 2,
        RuleType::GeoIP => 3,
        RuleType::IPCIDR => 4,
        RuleType::SrcIPCIDR => 5,
        RuleType::SrcPort => 6,
        RuleType::DstPort => 7,
        RuleType::Process => 8,
        RuleType::Match => 9,
        RuleType::Direct => 10,
        RuleType::Reject => 11,
        RuleType::Unknown => 12,
    }
}

/// `a` sorts before `b` string by string, a shorter list first when it is
/// the start of the longer one.
pub open spec fn list_less(a: Seq<String>, b: Seq<String>) -> bool
    decreases a.len(),
{
    if a.len() == 0 {
        b.len() > 0
    } else if b.len() == 0 {
        false
    } else if a[0]@ != b[0]@ {
        lex_less(a[0]@, b[0]@)
    } else {
        list_less(a.drop_first(), b.drop_first())
    }
}

proof fn lemma_list_asymmetric(a: Seq<String>, b: Seq<String>)
    ensures
        !(list_less(a, b) && list_less(b, a)),
    decreases a.len(),
{
    if a.len() > 0 && b.len() > 0 {
        if a[0]@ != b[0]@ {
            lemma_lex_asymmetric(a[0]@, b[0]@);
        } else {
            lemma_list_asymmetric(a.drop_first(), b.drop_first());
        }
    }
}

/// `a` sorts before `b`: the first strings that differ decide, then the
/// second ones.
pub open spec fn pair_less(a1: Seq<char>, a2: Seq<char>, b1: Seq<char>, b2: Seq<char>) -> bool {
    lex_less(a1, b1) || (a1 == b1 && lex_less(a2, b2))
}

/// An optional number sorts before another: nothing first.
pub open spec fn opt_less(a: Option<u64>, b: Option<u64>) -> bool {
    match (a, b) {
        (None, Some(_)) => true,
        (Some(x), Some(y)) => x < y,
        _ => false,
    }
}

/// `a` sorts before `b` by the field `by`, smallest first.
pub open spec fn field_less(by: ConSortBy, a: ConnectionWithSpeed, b: ConnectionWithSpeed) -> bool {
    let ac = a.connection;
    let bc = b.connection;
    let am = ac.metadata;
    let bm = bc.metadata;
    match by {
        ConSortBy::Host => pair_less(am.host@, am.destination_port@, bm.host@, bm.destination_port@),
        ConSortBy::Down => ac.download < bc.download,
        ConSortBy::Up => ac.upload < bc.upload,
        ConSortBy::DownSpeed => opt_less(a.download, b.download),
        ConSortBy::UpSpeed => opt_less(a.upload, b.upload),
        ConSortBy::Chains => list_less(ac.chains@, bc.chains@),
        ConSortBy::Rule => rule_rank(ac.rule) < rule_rank(bc.rule) || (ac.rule == bc.rule && lex_less(
            ac.rule_payload@,
            bc.rule_payload@,
        )),
        ConSortBy::Time => ac.start < bc.start,
        ConSortBy::Src => pair_less(am.source_ip@, am.source_port@, bm.source_ip@, bm.source_port@),
        ConSortBy::Dest => lex_less(am.destination_ip@, bm.destination_ip@) || (am.destination_ip@
            == bm.destination_ip@ && pair_less(am.host@, am.destination_port@, bm.host@, bm.destination_port@)),
        ConSortBy::Type => pair_less(am.connection_type@, am.network@, bm.connection_type@, bm.network@),
    }
}

/// An item of the connection page that carries a connection.
pub trait ConnectionItem {
    /// The connection the item carries.
    spec fn item_connection(&self) -> ConnectionWithSpeed;

    /// The connection the item carries.
    fn connection_ref(&self) -> (r: &ConnectionWithSpeed)
        ensures
            *r == self.item_connection(),
    ;
}

impl ConnectionItem for ConnectionWithSpeed {
    open spec fn item_connection(&self) -> ConnectionWithSpeed {
        *self
    }

    fn connection_ref(&self) -> (r: &ConnectionWithSpeed) {
        self
    }
}

/// `a` goes before `b` in the order `s`.
pub open spec fn con_before(s: ConSort, a: ConnectionWithSpeed, b: ConnectionWithSpeed) -> bool {
    match s.order {
        SortOrder::Ascendant => field_less(s.by, a, b),
        SortOrder::Descendant => field_less(s.by, b, a),
    }
}

/// No item goes before the one in front of it, by the connections they
/// carry.
pub open spec fn cons_in_order<T: ConnectionItem>(s: ConSort, list: Seq<T>) -> bool {
    forall|i: int|
        0 <= i < list.len() - 1 ==> !con_before(
            s,
            #[trigger] list[i + 1].item_connection(),
            list[i].item_connection(),
        )
}

proof fn lemma_field_asymmetric(by: ConSortBy, a: ConnectionWithSpeed, b: ConnectionWithSpeed)
    ensures
        !(field_less(by, a, b) && field_less(by, b, a)),
{
    let am = a.connection.metadata;
    let bm = b.connection.metadata;
    lemma_lex_asymmetric(am.host@, bm.host@);
    lemma_lex_asymmetric(am.destination_port@, bm.destination_port@);
    lemma_lex_asymmetric(am.source_ip@, bm.source_ip@);
    lemma_lex_asymmetric(am.source_port@, bm.source_port@);
    lemma_lex_asymmetric(am.destination_ip@, bm.destination_ip@);
    lemma_lex_asymmetric(am.connection_type@, bm.connection_type@);
    lemma_lex_asymmetric(am.network@, bm.network@);
    lemma_lex_asymmetric(a.connection.rule_payload@, b.connection.rule_payload@);
    lemma_lex_asymmetric(am.host@, am.host@);
    lemma_lex_asymmetric(bm.host@, bm.host@);
    lemma_lex_asymmetric(am.source_ip@, am.source_ip@);
    lemma_lex_asymmetric(am.destination_ip@, am.destination_ip@);
    lemma_lex_asymmetric(am.connection_type@, am.connection_type@);
    lemma_list_asymmetric(a.connection.chains@, b.connection.chains@);
}

/// In a list in the order `s` (as [`sort_connections`] leaves it), each
/// connection and the one after it follow the chosen column: in ascending
/// order the later one has no fewer bytes down or up, no smaller rate (and
/// a rate whenever the earlier one has one), no earlier start, no lower rule
/// type (and then no earlier rule payload), a first chain that does not
/// sort first (and a chain whenever the earlier one has one), and a host
/// (then port), source address (then port), destination address (then host
/// and port) or connection type (then network) that does not sort first;
/// descending order is the reverse.
pub proof fn sorted_list_follows_its_column<T: ConnectionItem>(s: ConSort, list: Seq<T>, i: int)
    requires
        cons_in_order(s, list),
        0 <= i < list.len() - 1,
    ensures
        ({
            let (x, y) = if s.order is Ascendant {
                (list[i].item_connection(), list[i + 1].item_connection())
            } else {
                (list[i + 1].item_connection(), list[i].item_connection())
            };
            let xc = x.connection;
            let yc = y.connection;
            match s.by {
                ConSortBy::Down => xc.download <= yc.download,
                ConSortBy::Up => xc.upload <= yc.upload,
                ConSortBy::DownSpeed => (x.download is Some ==> y.download is Some) && (x.download matches Some(
                    a,
                ) ==> y.download matches Some(b) && a <= b),
                ConSortBy::UpSpeed => (x.upload is Some ==> y.upload is Some) && (x.upload matches Some(a)
                    ==> y.upload matches Some(b) && a <= b),
                ConSortBy::Time => xc.start <= yc.start,
                ConSortBy::Rule => rule_rank(xc.rule) <= rule_rank(yc.rule) && (xc.rule == yc.rule ==> !lex_less(
                    yc.rule_payload@,
                    xc.rule_payload@,
                )),
                ConSortBy::Chains => (xc.chains@.len() > 0 ==> yc.chains@.len() > 0) && (xc.chains@.len() > 0
                    ==> !lex_less(yc.chains@[0]@, xc.chains@[0]@)),
                ConSortBy::Host => !lex_less(yc.metadata.host@, xc.metadata.host@) && (yc.metadata.host@
                    == xc.metadata.host@ ==> !lex_less(yc.metadata.destination_port@, xc.metadata.destination_port@)),
                ConSortBy::Src => !lex_less(yc.metadata.source_ip@, xc.metadata.source_ip@) && (
                yc.metadata.source_ip@ == xc.metadata.source_ip@ ==> !lex_less(
                    yc.metadata.source_port@,
                    xc.metadata.source_port@,
                )),
                ConSortBy::Dest => !lex_less(yc.metadata.destination_ip@, xc.metadata.destination_ip@) && (
                yc.metadata.destination_ip@ == xc.metadata.destination_ip@ ==> !lex_less(
                    yc.metadata.host@,
                    xc.metadata.host@,
                ) && (yc.metadata.host@ == xc.metadata.host@ ==> !lex_less(
                    yc.metadata.destination_port@,
                    xc.metadata.destination_port@,
                ))),
                ConSortBy::Type => !lex_less(yc.metadata.connection_type@, xc.metadata.connection_type@) && (
                yc.metadata.connection_type@ == xc.metadata.connection_type@ ==> !lex_less(
                    yc.metadata.network@,
                    xc.metadata.network@,
                )),
            }
        }),
{
    assert(!con_before(s, list[i + 1].item_connection(), list[i].item_connection()));
    let (x, y) = if s.order is Ascendant {
        (list[i].item_connection(), list[i + 1].item_connection())
    } else {
        (list[i + 1].item_connection(), list[i].item_connection())
    };
    assert(!field_less(s.by, y, x));
    let xc = x.connection;
    let yc = y.connection;
    if xc.chains@.len() > 0 && yc.chains@.len() > 0 && yc.chains@[0]@ == xc.chains@[0]@ {
        lemma_lex_asymmetric(yc.chains@[0]@, xc.chains@[0]@);
    }
}

/// Whether `a` sorts before `b` as lists of strings.
fn strings_less(a: &Vec<String>, b: &Vec<String>) -> (r: bool)
    ensures
        r == list_less(a@, b@),
{
    let mut i: usize = 0;
    assert(a@.skip(0) =~= a@);
    assert(b@.skip(0) =~= b@);
    while i < a.len() && i < b.len()
        invariant
            i <= a@.len(),
            i <= b@.len(),
            list_less(a@, b@) == list_less(a@.skip(i as int), b@.skip(i as int)),
        decreases a@.len() - i,
    {
        let x = a[i].as_str();
        let y = b[i].as_str();
        proof {
            assert(a@.skip(i as int)[0] == a@[i as int]);
            assert(b@.skip(i as int)[0] == b@[i as int]);
            assert(a@.skip(i as int).drop_first() =~= a@.skip(i + 1));
            assert(b@.skip(i as int).drop_first() =~= b@.skip(i + 1));
        }
        if !crate::text::str_eq(x, y) {
            return str_less(x, y);
        }
        i = i + 1;
    }
    i == a.len() && i < b.len()
}

/// Whether two strings hold the same characters.
fn same(a: &String, b: &String) -> (r: bool)
    ensures
        r == (a@ == b@),
{
    crate::text::str_eq(a.as_str(), b.as_str())
}

fn pair_less_of(a1: &String, a2: &String, b1: &String, b2: &String) -> (r: bool)
    ensures
        r == pair_less(a1@, a2@, b1@, b2@),
{
    str_less(a1.as_str(), b1.as_str()) || (same(a1, b1) && str_less(a2.as_str(), b2.as_str()))
}

fn opt_less_of(a: Option<u64>, b: Option<u64>) -> (r: bool)
    ensures
        r == opt_less(a, b),
{
    match (a, b) {
        (None, Some(_)) => true,
        (Some(x), Some(y)) => x < y,
        _ => false,
    }
}

/// Whether `a` sorts before `b` by the field `by`, smallest first.
fn field_less_of(by: ConSortBy, a: &ConnectionWithSpeed, b: &ConnectionWithSpeed) -> (r: bool)
    ensures
        r == field_less(by, *a, *b),
{
    let ac = &a.connection;
    let bc = &b.connection;
    let am = &ac.metadata;
    let bm = &bc.metadata;
    match by {
        ConSortBy::Host => pair_less_of(&am.host, &am.destination_port, &bm.host, &bm.destination_port),
        ConSortBy::Down => ac.download < bc.download,
        ConSortBy::Up => ac.upload < bc.upload,
        ConSortBy::DownSpeed => opt_less_of(a.download, b.download),
        ConSortBy::UpSpeed => opt_less_of(a.upload, b.upload),
        ConSortBy::Chains => strings_less(&ac.chains, &bc.chains),
        ConSortBy::Rule => {
            let ra = rule_rank_of(ac.rule);
            let rb = rule_rank_of(bc.rule);
            ra < rb || (ra == rb && str_less(ac.rule_payload.as_str(), bc.rule_payload.as_str()))
        },
        ConSortBy::Time => ac.start < bc.start,
        ConSortBy::Src => pair_less_of(&am.source_ip, &am.source_port, &bm.source_ip, &bm.source_port),
        ConSortBy::Dest => str_less(am.destination_ip.as_str(), bm.destination_ip.as_str()) || (same(
            &am.destination_ip,
            &bm.destination_ip,
        ) && pair_less_of(&am.host, &am.destination_port, &bm.host, &bm.destination_port)),
        ConSortBy::Type => pair_less_of(&am.connection_type, &am.network, &bm.connection_type, &bm.network),
    }
}

/// Whether `a` goes before `b` in the order `s`.
fn before_of(s: ConSort, a: &ConnectionWithSpeed, b: &ConnectionWithSpeed) -> (r: bool)
    ensures
        r == con_before(s, *a, *b),
{
    match s.order {
        SortOrder::Ascendant => field_less_of(s.by, a, b),
        SortOrder::Descendant => field_less_of(s.by, b, a),
    }
}

/// Where `x` goes among `sorted`: after the last item whose connection `x`
/// does not go before.
pub open spec fn insert_pos<T: ConnectionItem>(s: ConSort, sorted: Seq<T>, x: T) -> int
    decreases sorted.len(),
{
    if sorted.len() == 0 {
        0
    } else if con_before(s, x.item_connection(), sorted.last().item_connection()) {
        insert_pos(s, sorted.drop_last(), x)
    } else {
        sorted.len() as int
    }
}

/// The items of `list` ordered by `s`: each item in turn put after the last
/// item already placed whose connection it does not go before, so that
/// items whose connections neither goes before the other keep the order
/// they came in.
pub open spec fn sorted_by<T: ConnectionItem>(s: ConSort, list: Seq<T>) -> Seq<T>
    decreases list.len(),
{
    if list.len() == 0 {
        Seq::empty()
    } else {
        let placed = sorted_by(s, list.drop_last());
        placed.insert(insert_pos(s, placed, list.last()), list.last())
    }
}

/// The items of `list` ordered by `s`, by the connections they carry; see
/// [`sorted_by`]. The result holds the same items, in order.
pub fn sort_connections<T: ConnectionItem>(list: Vec<T>, s: ConSort) -> (r: Vec<T>)
    ensures
        r@ == sorted_by(s, list@),
        r@.to_multiset() == list@.to_multiset(),
        cons_in_order(s, r@),
{
    let ghost start = list@;
    let mut rest = list;
    let mut sorted: Vec<T> = Vec::new();
    proof {
        vstd::seq_lib::to_multiset_len(sorted@);
        vstd::multiset::lemma_multiset_empty_len(sorted@.to_multiset());
        assert(sorted@.to_multiset().add(rest@.to_multiset()) =~= rest@.to_multiset());
    }
    let ghost consumed: int = 0;
    proof {
        assert(start.take(0) =~= Seq::<T>::empty());
        assert(start.skip(0) =~= start);
    }
    while rest.len() > 0
        invariant
            0 <= consumed <= start.len(),
            rest@ == start.skip(consumed),
            sorted@ == sorted_by(s, start.take(consumed)),
            sorted@.to_multiset().add(rest@.to_multiset()) == start.to_multiset(),
            cons_in_order(s, sorted@),
        decreases rest@.len(),
    {
        let ghost rest_before = rest@;
        let x = rest.remove(0);
        proof {
            assert(rest@ == rest_before.remove(0));
            vstd::seq_lib::to_multiset_remove(rest_before, 0);
            vstd::seq_lib::to_multiset_contains(rest_before, x);
            assert(rest@.to_multiset() =~= rest_before.to_multiset().remove(x));
            assert(rest_before.to_multiset().count(x) > 0) by {
                assert(rest_before[0] == x);
                assert(rest_before.contains(x));
            }
            assert(rest_before.to_multiset() =~= rest@.to_multiset().insert(x));
        }
        // insert after every connection that x does not go before
        let mut k: usize = sorted.len();
        proof {
            assert(sorted@.take(k as int) =~= sorted@);
        }
        while k > 0 && before_of(s, x.connection_ref(), sorted[k - 1].connection_ref())
            invariant
                k <= sorted@.len(),
                insert_pos(s, sorted@.take(k as int), x) == insert_pos(s, sorted@, x),
                forall|j: int|
                    k <= j < sorted@.len() ==> con_before(
                        s,
                        x.item_connection(),
                        #[trigger] sorted@[j].item_connection(),
                    ),
            decreases k,
        {
            proof {
                assert(sorted@.take(k as int).drop_last() =~= sorted@.take(k - 1));
                assert(sorted@.take(k as int).last() == sorted@[k - 1]);
            }
            k = k - 1;
        }
        proof {
            if k > 0 {
                assert(sorted@.take(k as int).last() == sorted@[k - 1]);
            }
        }
        assert(insert_pos(s, sorted@, x) == k);
        let ghost before = sorted@;
        assert(k == 0 || !con_before(s, x.item_connection(), before[k - 1].item_connection()));
        sorted.insert(k, x);
        proof {
            assert(sorted@ =~= before.insert(k as int, x));
            vstd::seq_lib::to_multiset_insert(before, k as int, x);
            assert(sorted@.to_multiset() =~= before.to_multiset().insert(x));
            assert forall|i: int| 0 <= i < sorted@.len() - 1 implies !con_before(
                s,
                #[trigger] sorted@[i + 1].item_connection(),
                sorted@[i].item_connection(),
            ) by {
                if i + 1 < k {
                    assert(sorted@[i] == before[i]);
                    assert(sorted@[i + 1] == before[i + 1]);
                    assert(!con_before(s, before[i + 1].item_connection(), before[i].item_connection()));
                } else if i + 1 == k {
                    assert(sorted@[i] == before[i]);
                    assert(sorted@[i + 1] == x);
                } else if i == k {
                    assert(sorted@[i] == x);
                    assert(sorted@[i + 1] == before[i]);
                    assert(con_before(s, x.item_connection(), before[i].item_connection()));
                    lemma_field_asymmetric(s.by, x.item_connection(), before[i].item_connection());
                } else {
                    assert(sorted@[i] == before[i - 1]);
                    assert(sorted@[i + 1] == before[i]);
                    let j = i - 1;
                    assert(!con_before(s, before[j + 1].item_connection(), before[j].item_connection()));
                }
            }
            assert(sorted@.to_multiset().add(rest@.to_multiset()) =~= start.to_multiset());
            assert(start.take(consumed + 1).drop_last() =~= start.take(consumed));
            assert(start[consumed] == x);
            assert(start.take(consumed + 1).last() == x);
            assert(rest@ =~= start.skip(consumed + 1));
            consumed = consumed + 1;
        }
    }
    proof {
        vstd::seq_lib::to_multiset_len(rest@);
        vstd::multiset::lemma_multiset_empty_len(rest@.to_multiset());
        assert(sorted@.to_multiset().add(rest@.to_multiset()) =~= sorted@.to_multiset());
        assert(consumed == start.len());
        assert(start.take(consumed) =~= start);
    }
    sorted
}

} // verus!
