//! The footer under a list: on the left the mode, the keys that apply and the
//! search, on the right the cursor's line and column.

use vstd::prelude::*;

use crate::list::{Coord, ListState};
use crate::text::{concat, owned, usize_to_decimal};

verus! {

/// How a footer label is coloured: reversed in green, blue or red, or in the
/// terminal's own colours.
#[derive(Debug, Clone, Copy, PartialEq, Eq)]
pub enum FooterColor {
    Plain,
    Green,
    Blue,
    Red,
}

/// One label of the footer. A tagged label shows its tag beside its text; a
/// wrapped one is framed by brackets.
#[derive(Debug, Clone, PartialEq, Eq)]
pub struct FooterItem {
    pub tag: Option<String>,
    pub text: String,
    pub color: FooterColor,
    pub bold: bool,
    pub wrapped: bool,
}

/// A footer item with its strings as character sequences.
pub struct FooterItemView {
    pub tag: Option<Seq<char>>,
    pub text: Seq<char>,
    pub color: FooterColor,
    pub bold: bool,
    pub wrapped: bool,
}

/// The labels of a footer, left to right on each side.
#[derive(Debug, Clone, PartialEq, Eq)]
pub struct Footer {
    pub left: Vec<FooterItem>,
    pub right: Vec<FooterItem>,
}

/// The item with its strings as character sequences.
pub open spec fn item_view(i: FooterItem) -> FooterItemView {
    FooterItemView {
        tag: match i.tag {
            Some(t) => Some(t@),
            None => None,
        },
        text: i.text@,
        color: i.color,
        bold: i.bold,
        wrapped: i.wrapped,
    }
}

/// Each item with its strings as character sequences.
pub open spec fn items_view(s: Seq<FooterItem>) -> Seq<FooterItemView> {
    s.map_values(|i: FooterItem| item_view(i))
}

/// A label with no tag, not bold and not wrapped.
pub open spec fn label(text: Seq<char>, color: FooterColor) -> FooterItemView {
    FooterItemView { tag: None, text, color, bold: false, wrapped: false }
}

/// The pause labels, where the list can be paused.
pub open spec fn pause_labels(can_pause: bool, paused: bool, color: FooterColor) -> Seq<FooterItemView> {
    if !can_pause {
        Seq::empty()
    } else if paused {
        seq![label(" PAUSED "@, FooterColor::Red), label(" p Resume "@, color), label(" c Clear "@, color)]
    } else {
        seq![label(" p Pause "@, color), label(" c Clear "@, color)]
    }
}

/// The sort label, where there is a sort to name.
pub open spec fn sort_labels(sort: Seq<char>, color: FooterColor) -> Seq<FooterItemView> {
    if sort.len() == 0 {
        Seq::empty()
    } else {
        seq![FooterItemView { tag: Some("Sort"@), text: sort, color, bold: false, wrapped: false }]
    }
}

/// The search labels, where the list can be searched: the query and how to
/// cancel it while a search is open, how to start one otherwise.
pub open spec fn search_labels(can_search: bool, query: Option<Seq<char>>, color: FooterColor) -> Seq<
    FooterItemView,
> {
    if !can_search {
        Seq::empty()
    } else {
        match query {
            Some(q) => seq![
                FooterItemView { tag: None, text: " SEARCH "@, color, bold: true, wrapped: false },
                FooterItemView { tag: None, text: q, color: FooterColor::Plain, bold: false, wrapped: true },
                label(" Esc Cancel "@, color),
            ],
            None => seq![label(" / Search "@, color)],
        }
    }
}

/// The left side of the footer. A held list is in green and names the move
/// keys after its mode; a free one is in blue and names them after the pause
/// labels.
pub open spec fn footer_left(
    hold: bool,
    can_pause: bool,
    paused: bool,
    sort: Seq<char>,
    can_search: bool,
    query: Option<Seq<char>>,
) -> Seq<FooterItemView> {
    if hold {
        let c = FooterColor::Green;
        seq![label(" FREE "@, c), label(" [^] ▲ ▼ ◀ ▶ Move "@, c)] + pause_labels(can_pause, paused, c)
            + sort_labels(sort, c) + search_labels(can_search, query, c)
    } else {
        let c = FooterColor::Blue;
        seq![label(" NORMAL "@, c)] + pause_labels(can_pause, paused, c) + seq![
            label(" SPACE / [^] ▲ ▼ ◀ ▶ Move "@, c),
        ] + sort_labels(sort, c) + search_labels(can_search, query, c)
    }
}

/// The right side of the footer: the cursor's line and column.
pub open spec fn footer_right(pos: Coord) -> Seq<FooterItemView> {
    seq![
        label(
            " Ln "@ + decimal_of(pos.y) + ", Col "@ + decimal_of(pos.x) + " "@,
            if pos.hold {
                FooterColor::Green
            } else {
                FooterColor::Blue
            },
        ),
    ]
}

/// The decimal digits of `n`.
pub open spec fn decimal_of(n: usize) -> Seq<char> {
    crate::text::decimal(n as nat)
}

/// Where the cursor of a list is drawn.
pub open spec fn list_pos<T>(s: ListState<T>) -> Coord {
    Coord {
        x: s.offset.x,
        y: if s.offset.y <= s.visible_len_spec() {
            (s.visible_len_spec() - s.offset.y) as usize
        } else {
            0
        },
        hold: s.offset.hold,
    }
}

/// The query as a character sequence.
pub open spec fn query_view(q: Option<String>) -> Option<Seq<char>> {
    match q {
        Some(s) => Some(s@),
        None => None,
    }
}

/// Appends an untagged label.
fn push_label(out: &mut Vec<FooterItem>, text: &str, color: FooterColor, bold: bool, wrapped: bool)
    ensures
        items_view(final(out)@) == items_view(old(out)@).push(
            FooterItemView { tag: None, text: text@, color, bold, wrapped },
        ),
{
    let ghost before = old(out)@;
    out.push(FooterItem { tag: None, text: owned(text), color, bold, wrapped });
    assert(items_view(out@) =~= items_view(before).push(
        FooterItemView { tag: None, text: text@, color, bold, wrapped },
    ));
}

/// Appends the pause labels.
fn push_pause(out: &mut Vec<FooterItem>, can_pause: bool, paused: bool, color: FooterColor)
    ensures
        items_view(final(out)@) == items_view(old(out)@) + pause_labels(can_pause, paused, color),
{
    let ghost start = items_view(old(out)@);
    if can_pause {
        if paused {
            push_label(out, " PAUSED ", FooterColor::Red, false, false);
            push_label(out, " p Resume ", color, false, false);
        } else {
            push_label(out, " p Pause ", color, false, false);
        }
        push_label(out, " c Clear ", color, false, false);
    }
    assert(items_view(out@) =~= start + pause_labels(can_pause, paused, color));
}

/// Appends the sort label.
fn push_sort(out: &mut Vec<FooterItem>, sort: &str, color: FooterColor)
    ensures
        items_view(final(out)@) == items_view(old(out)@) + sort_labels(sort@, color),
{
    let ghost start = items_view(old(out)@);
    if sort.unicode_len() > 0 {
        out.push(FooterItem { tag: Some(owned("Sort")), text: owned(sort), color, bold: false, wrapped: false });
    }
    assert(items_view(out@) =~= start + sort_labels(sort@, color));
}

/// Appends the search labels.
fn push_search(out: &mut Vec<FooterItem>, can_search: bool, query: Option<&str>, color: FooterColor)
    ensures
        items_view(final(out)@) == items_view(old(out)@) + search_labels(
            can_search,
            match query {
                Some(q) => Some(q@),
                None => None,
            },
            color,
        ),
{
    let ghost start = items_view(old(out)@);
    if can_search {
        match query {
            Some(q) => {
                push_label(out, " SEARCH ", color, true, false);
                push_label(out, q, FooterColor::Plain, false, true);
                push_label(out, " Esc Cancel ", color, false, false);
            },
            None => {
                push_label(out, " / Search ", color, false, false);
            },
        }
    }
    assert(items_view(out@) =~= start + search_labels(
        can_search,
        match query {
            Some(q) => Some(q@),
            None => None,
        },
        color,
    ));
}

/// The footer of a list whose sort is named `sort_label` (empty where the
/// list is not sorted) and which can be searched where `can_search` holds.
pub fn footer_text<T>(state: &ListState<T>, sort_label: &str, can_search: bool) -> (r: Footer)
    ensures
        items_view(r.left@) == footer_left(
            state.offset.hold,
            state.pause_enabled,
            state.paused,
            sort_label@,
            can_search,
            query_view(state.search_query),
        ),
        items_view(r.right@) == footer_right(list_pos(*state)),
{
    let pos = state.current_pos();
    let mut left: Vec<FooterItem> = Vec::new();
    let ghost empty = items_view(left@);
    assert(empty =~= Seq::<FooterItemView>::empty());
    let color = if pos.hold {
        FooterColor::Green
    } else {
        FooterColor::Blue
    };
    if pos.hold {
        push_label(&mut left, " FREE ", color, false, false);
        push_label(&mut left, " [^] ▲ ▼ ◀ ▶ Move ", color, false, false);
        push_pause(&mut left, state.can_pause(), state.is_paused(), color);
    } else {
        push_label(&mut left, " NORMAL ", color, false, false);
        push_pause(&mut left, state.can_pause(), state.is_paused(), color);
        push_label(&mut left, " SPACE / [^] ▲ ▼ ◀ ▶ Move ", color, false, false);
    }
    push_sort(&mut left, sort_label, color);
    push_search(&mut left, can_search, state.search_query(), color);
    proof {
        let q = query_view(state.search_query);
        let c = color;
        if pos.hold {
            assert(items_view(left@) =~= seq![label(" FREE "@, c), label(" [^] ▲ ▼ ◀ ▶ Move "@, c)]
                + pause_labels(state.pause_enabled, state.paused, c) + sort_labels(sort_label@, c)
                + search_labels(can_search, q, c));
        } else {
            assert(items_view(left@) =~= seq![label(" NORMAL "@, c)] + pause_labels(
                state.pause_enabled,
                state.paused,
                c,
            ) + seq![label(" SPACE / [^] ▲ ▼ ◀ ▶ Move "@, c)] + sort_labels(sort_label@, c)
                + search_labels(can_search, q, c));
        }
    }
    let mut text = concat(" Ln ", usize_to_decimal(pos.y).as_str());
    text = concat(text.as_str(), ", Col ");
    text = concat(text.as_str(), usize_to_decimal(pos.x).as_str());
    text = concat(text.as_str(), " ");
    let mut right: Vec<FooterItem> = Vec::new();
    push_label(&mut right, text.as_str(), color, false, false);
    assert(items_view(right@) =~= footer_right(list_pos(*state)));
    Footer { left, right }
}

} // verus!
