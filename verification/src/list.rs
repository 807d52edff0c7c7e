//! The state of a scrollable list: its items, the cursor, pausing and the
//! search filter.

use vstd::prelude::*;

use crate::event::{Action, KeyCode, ListEvent};
use crate::text::{contains_spec, pop_char, push_char, str_contains, to_lowercase, unicode_lower};

verus! {

/// Scroll position of a list or popup, and whether the list is held (the
/// cursor is shown and does not follow new items).
#[derive(Debug, Clone, Copy, PartialEq, Eq, Structural)]
pub struct Coord {
    pub x: usize,
    pub y: usize,
    pub hold: bool,
}

impl Default for Coord {
    fn default() -> (r: Coord)
        ensures
            r == (Coord { x: 0, y: 0, hold: false }),
    {
        Coord { x: 0, y: 0, hold: false }
    }
}

impl Coord {
    /// Back to the top, released.
    pub fn end(&mut self)
        ensures
            *final(self) == (Coord { x: 0, y: 0, hold: false }),
    {
        *self = Coord { x: 0, y: 0, hold: false };
    }

    /// Held where it is.
    pub fn hold(&mut self)
        ensures
            *final(self) == (Coord { hold: true, ..*old(self) }),
    {
        self.hold = true;
    }

    /// Released and back to the top when held, held otherwise.
    pub fn toggle(&mut self)
        ensures
            *final(self) == (if old(self).hold {
                Coord { x: 0, y: 0, hold: false }
            } else {
                Coord { hold: true, ..*old(self) }
            }),
    {
        if self.hold {
            self.end();
        } else {
            self.hold();
        }
    }
}

/// Items that a search can find.
pub trait SearchText {
    /// Whether a search for `query`, already in lower case, finds the item.
    spec fn hit(&self, query: Seq<char>) -> bool;

    fn is_hit(&self, query: &str) -> (r: bool)
        ensures
            r == self.hit(query@),
    ;
}

/// A string is found when its lower-cased text contains the query.
impl SearchText for String {
    open spec fn hit(&self, query: Seq<char>) -> bool {
        contains_spec(unicode_lower(self@), query)
    }

    fn is_hit(&self, query: &str) -> (r: bool) {
        let lower = to_lowercase(self.as_str());
        str_contains(lower.as_str(), query)
    }
}

/// A list shown on a page: newest items at the bottom by default, a cursor
/// counted from the bottom, an optional search filter and a pause switch.
#[derive(Debug, PartialEq, Eq)]
pub struct ListState<T> {
    pub offset: Coord,
    pub items: Vec<T>,
    pub padding: u16,
    pub with_index: bool,
    pub reverse_index: bool,
    /// Newest item first on screen, cursor counted from the newest item.
    pub reverse_items: bool,
    pub pause_enabled: bool,
    pub paused: bool,
    pub search_query: Option<String>,
    /// Positions of the items that match the search, in order.
    pub filtered_indices: Option<Vec<usize>>,
    /// Text shown when the list is empty.
    pub placeholder: Option<String>,
    /// The first row of the last drawn window, kept between draws so that
    /// the cursor walks the page and the window follows only at its edges.
    pub window_start: usize,
}

/// The filter holds ascending positions of items.
pub open spec fn filter_ok(filtered: Option<Vec<usize>>, len: nat) -> bool {
    match filtered {
        Some(ix) => forall|i: int, j: int|
            0 <= i < j < ix@.len() ==> #[trigger] ix@[i] < #[trigger] ix@[j] && ix@[j] < len,
        None => true,
    }
}

/// Every position in the filter points at an item.
pub open spec fn filter_in_range(filtered: Option<Vec<usize>>, len: nat) -> bool {
    match filtered {
        Some(ix) => forall|i: int| 0 <= i < ix@.len() ==> #[trigger] ix@[i] < len,
        None => true,
    }
}

/// Positions below `n` of the items of `texts` that contain `query`.
pub open spec fn matching(texts: Seq<Seq<char>>, query: Seq<char>, n: int) -> Seq<usize>
    decreases n,
{
    if n <= 0 {
        Seq::empty()
    } else if contains_spec(texts[n - 1], query) {
        matching(texts, query, n - 1).push((n - 1) as usize)
    } else {
        matching(texts, query, n - 1)
    }
}

/// Whether a search for `query` finds each item.
pub open spec fn hit_flags<T: SearchText>(items: Seq<T>, query: Seq<char>) -> Seq<bool> {
    items.map_values(|item: T| item.hit(query))
}

/// Positions below `n` whose flag is set.
pub open spec fn selected(flags: Seq<bool>, n: int) -> Seq<usize>
    decreases n,
{
    if n <= 0 {
        Seq::empty()
    } else if flags[n - 1] {
        selected(flags, n - 1).push((n - 1) as usize)
    } else {
        selected(flags, n - 1)
    }
}

pub(crate) proof fn lemma_selected(flags: Seq<bool>, n: int)
    requires
        0 <= n <= flags.len(),
        flags.len() <= usize::MAX,
    ensures
        forall|i: int, j: int|
            0 <= i < j < selected(flags, n).len() ==> #[trigger] selected(flags, n)[i]
                < #[trigger] selected(flags, n)[j],
        forall|i: int| 0 <= i < selected(flags, n).len() ==> #[trigger] selected(flags, n)[i] < n,
        forall|k: int| 0 <= k < n ==> (selected(flags, n).contains(k as usize) <==> #[trigger] flags[k]),
    decreases n,
{
    if n > 0 {
        lemma_selected(flags, n - 1);
        let prev = selected(flags, n - 1);
        if flags[n - 1] {
            assert(selected(flags, n) == prev.push((n - 1) as usize));
            assert forall|k: int| 0 <= k < n implies (selected(flags, n).contains(k as usize)
                <==> #[trigger] flags[k]) by {
                if k < n - 1 {
                    if prev.contains(k as usize) {
                        let w = choose|w: int| 0 <= w < prev.len() && prev[w] == k as usize;
                        assert(selected(flags, n)[w] == k as usize);
                    }
                    if selected(flags, n).contains(k as usize) {
                        let w = choose|w: int|
                            0 <= w < selected(flags, n).len() && selected(flags, n)[w] == k as usize;
                        if w == prev.len() {
                        } else {
                            assert(prev[w] == k as usize);
                        }
                    }
                } else {
                    assert(selected(flags, n)[prev.len() as int] == (n - 1) as usize);
                }
            }
        } else {
            assert forall|k: int| 0 <= k < n implies (selected(flags, n).contains(k as usize)
                <==> #[trigger] flags[k]) by {
                if k == n - 1 && prev.contains(k as usize) {
                    let w = choose|w: int| 0 <= w < prev.len() && prev[w] == k as usize;
                    assert(prev[w] < n - 1);
                }
            }
        }
    }
}

pub(crate) proof fn lemma_matching(texts: Seq<Seq<char>>, query: Seq<char>, n: int)
    requires
        0 <= n <= texts.len(),
        texts.len() <= usize::MAX,
    ensures
        forall|i: int, j: int|
            0 <= i < j < matching(texts, query, n).len() ==> #[trigger] matching(texts, query, n)[i]
                < #[trigger] matching(texts, query, n)[j],
        forall|i: int|
            0 <= i < matching(texts, query, n).len() ==> #[trigger] matching(texts, query, n)[i]
                < n,
        forall|k: int|
            0 <= k < n ==> (matching(texts, query, n).contains(k as usize) <==> contains_spec(
                #[trigger] texts[k],
                query,
            )),
    decreases n,
{
    if n > 0 {
        lemma_matching(texts, query, n - 1);
        let prev = matching(texts, query, n - 1);
        if contains_spec(texts[n - 1], query) {
            assert(matching(texts, query, n) == prev.push((n - 1) as usize));
            assert forall|k: int| 0 <= k < n implies (matching(texts, query, n).contains(
                k as usize,
            ) <==> contains_spec(#[trigger] texts[k], query)) by {
                if k < n - 1 {
                    if prev.contains(k as usize) {
                        let w = choose|w: int| 0 <= w < prev.len() && prev[w] == k as usize;
                        assert(matching(texts, query, n)[w] == k as usize);
                    }
                    if matching(texts, query, n).contains(k as usize) {
                        let w = choose|w: int|
                            0 <= w < matching(texts, query, n).len() && matching(
                                texts,
                                query,
                                n,
                            )[w] == k as usize;
                        if w == prev.len() {
                        } else {
                            assert(prev[w] == k as usize);
                        }
                    }
                } else {
                    assert(matching(texts, query, n)[prev.len() as int] == (n - 1) as usize);
                }
            }
        } else {
            assert forall|k: int| 0 <= k < n implies (matching(texts, query, n).contains(
                k as usize,
            ) <==> contains_spec(#[trigger] texts[k], query)) by {
                if k == n - 1 && prev.contains(k as usize) {
                    let w = choose|w: int| 0 <= w < prev.len() && prev[w] == k as usize;
                    assert(prev[w] < n - 1);
                }
            }
        }
    }
}

impl<T> ListState<T> {
    /// Number of items shown: the matches while a search filters, all items
    /// otherwise.
    pub open spec fn visible_len_spec(&self) -> nat {
        match self.filtered_indices {
            Some(ix) => ix@.len(),
            None => self.items@.len(),
        }
    }

    /// Position of the item under the cursor, if the cursor is on one.
    pub open spec fn current_index(&self) -> Option<int> {
        let y = self.offset.y as int;
        let n = self.visible_len_spec() as int;
        let visible = if self.reverse_items {
            n - (y + 1)
        } else {
            y
        };
        if visible < 0 || visible >= n {
            None
        } else {
            match self.filtered_indices {
                Some(ix) => Some(ix@[visible] as int),
                None => Some(visible),
            }
        }
    }

    /// A list of `items` with the default settings: newest first, not
    /// pausable, no search.
    pub fn new(items: Vec<T>) -> (r: ListState<T>)
        ensures
            r.items == items,
            r.offset == (Coord { x: 0, y: 0, hold: false }),
            r.padding == 1,
            !r.with_index && !r.reverse_index && r.reverse_items,
            !r.pause_enabled && !r.paused,
            r.search_query is None && r.filtered_indices is None && r.placeholder is None,
            r.window_start == 0,
    {
        ListState {
            offset: Coord { x: 0, y: 0, hold: false },
            items,
            padding: 1,
            with_index: false,
            reverse_index: false,
            reverse_items: true,
            pause_enabled: false,
            paused: false,
            search_query: None,
            filtered_indices: None,
            placeholder: None,
            window_start: 0,
        }
    }

    pub fn with_index(&mut self)
        ensures
            *final(self) == (ListState { with_index: true, ..*old(self) }),
    {
        self.with_index = true;
    }

    pub fn without_index(&mut self)
        ensures
            *final(self) == (ListState { with_index: false, ..*old(self) }),
    {
        self.with_index = false;
    }

    pub fn asc_index(&mut self)
        ensures
            *final(self) == (ListState { reverse_index: false, ..*old(self) }),
    {
        self.reverse_index = false;
    }

    pub fn dsc_index(&mut self)
        ensures
            *final(self) == (ListState { reverse_index: true, ..*old(self) }),
    {
        self.reverse_index = true;
    }

    /// Oldest item first on screen.
    pub fn normal_order(&mut self)
        ensures
            *final(self) == (ListState { reverse_items: false, ..*old(self) }),
    {
        self.reverse_items = false;
    }

    pub fn reverse_order(&mut self)
        ensures
            *final(self) == (ListState { reverse_items: true, ..*old(self) }),
    {
        self.reverse_items = true;
    }

    pub fn pausable(&mut self)
        ensures
            *final(self) == (ListState { pause_enabled: true, ..*old(self) }),
    {
        self.pause_enabled = true;
    }

    pub fn set_padding(&mut self, padding: u16)
        ensures
            *final(self) == (ListState { padding, ..*old(self) }),
    {
        self.padding = padding;
    }

    pub fn placeholder(&mut self, content: String)
        ensures
            *final(self) == (ListState { placeholder: Some(content), ..*old(self) }),
    {
        self.placeholder = Some(content);
    }

    pub fn is_searching(&self) -> (r: bool)
        ensures
            r == (self.search_query is Some),
    {
        self.search_query.is_some()
    }

    pub fn search_query(&self) -> (r: Option<&str>)
        ensures
            match r {
                Some(q) => self.search_query is Some && q@ == self.search_query->0@,
                None => self.search_query is None,
            },
    {
        match &self.search_query {
            Some(q) => Some(q.as_str()),
            None => None,
        }
    }

    /// Starts a search with an empty query; every item stays visible.
    pub fn begin_search(&mut self)
        ensures
            final(self).search_query is Some,
            final(self).search_query->0@.len() == 0,
            *final(self) == (ListState {
                search_query: final(self).search_query,
                filtered_indices: None,
                ..*old(self)
            }),
    {
        self.search_query = Some(String::new());
        self.filtered_indices = None;
    }

    /// Ends the search. While a search filtered the list, the cursor is put
    /// on the item it was on, counted from the newest item.
    pub fn cancel_search(&mut self)
        requires
            filter_in_range(old(self).filtered_indices, old(self).items@.len()),
        ensures
            final(self).search_query is None,
            final(self).filtered_indices is None,
            final(self).items == old(self).items,
            final(self).reverse_items == old(self).reverse_items,
            final(self).offset == (if old(self).filtered_indices is Some && old(
                self,
            ).current_index() is Some {
                Coord {
                    y: (old(self).items@.len() - (old(self).current_index()->0 + 1)) as usize,
                    ..old(self).offset
                }
            } else {
                old(self).offset
            }),
            final(self).pause_enabled == old(self).pause_enabled,
            final(self).paused == old(self).paused,
    {
        if self.filtered_indices.is_some() {
            if let Some(item_index) = self.current_item_index() {
                self.offset.y = self.items.len() - (item_index + 1);
            }
        }
        self.search_query = None;
        self.filtered_indices = None;
    }

    pub fn can_pause(&self) -> (r: bool)
        ensures
            r == self.pause_enabled,
    {
        self.pause_enabled
    }

    pub fn is_paused(&self) -> (r: bool)
        ensures
            r == self.paused,
    {
        self.paused
    }

    /// Pauses or resumes updates, when the list can be paused.
    pub fn toggle_paused(&mut self)
        ensures
            *final(self) == (ListState {
                paused: if old(self).pause_enabled {
                    !old(self).paused
                } else {
                    old(self).paused
                },
                ..*old(self)
            }),
    {
        if self.pause_enabled {
            self.paused = !self.paused;
        }
    }

    pub fn visible_len(&self) -> (r: usize)
        ensures
            r == self.visible_len_spec(),
    {
        match &self.filtered_indices {
            Some(ix) => ix.len(),
            None => self.items.len(),
        }
    }

    /// Position of the item shown at `visible_index`.
    pub fn visible_item_index(&self, visible_index: usize) -> (r: Option<usize>)
        ensures
            r == (match self.filtered_indices {
                Some(ix) => if visible_index < ix@.len() {
                    Some(ix@[visible_index as int])
                } else {
                    None
                },
                None => Some(visible_index),
            }),
    {
        match &self.filtered_indices {
            Some(ix) => if visible_index < ix.len() {
                Some(ix[visible_index])
            } else {
                None
            },
            None => Some(visible_index),
        }
    }

    /// Position of the item under the cursor.
    pub fn current_item_index(&self) -> (r: Option<usize>)
        ensures
            match r {
                Some(i) => self.current_index() == Some(i as int),
                None => self.current_index() is None,
            },
    {
        let y = self.offset.y;
        let n = self.visible_len();
        let visible = if self.reverse_items {
            if y >= n {
                return None;
            }
            n - (y + 1)
        } else {
            if y >= n {
                return None;
            }
            y
        };
        self.visible_item_index(visible)
    }

    pub fn len(&self) -> (r: usize)
        ensures
            r == self.items@.len(),
    {
        self.items.len()
    }

    pub fn is_empty(&self) -> (r: bool)
        ensures
            r == (self.items@.len() == 0),
    {
        self.items.len() == 0
    }

    pub fn get(&self, index: usize) -> (r: Option<&T>)
        ensures
            match r {
                Some(x) => index < self.items@.len() && *x == self.items@[index as int],
                None => index >= self.items@.len(),
            },
    {
        if index < self.items.len() {
            Some(&self.items[index])
        } else {
            None
        }
    }

    /// Cursor position for drawing: the column, and the row counted from the
    /// top of the visible items.
    pub fn current_pos(&self) -> (r: Coord)
        ensures
            r == (Coord {
                x: self.offset.x,
                y: if self.offset.y <= self.visible_len_spec() {
                    (self.visible_len_spec() - self.offset.y) as usize
                } else {
                    0
                },
                hold: self.offset.hold,
            }),
    {
        let n = self.visible_len();
        let y = if self.offset.y <= n {
            n - self.offset.y
        } else {
            0
        };
        Coord { x: self.offset.x, y, hold: self.offset.hold }
    }

    /// Holds the list or releases it back to the top.
    pub fn toggle(&mut self)
        ensures
            *final(self) == (ListState { offset: if old(self).offset.hold {
                Coord { x: 0, y: 0, hold: false }
            } else {
                Coord { hold: true, ..old(self).offset }
            }, ..*old(self) }),
    {
        self.offset.toggle();
    }

    /// Releases the list back to the top.
    pub fn end(&mut self)
        ensures
            *final(self) == (ListState { offset: Coord { x: 0, y: 0, hold: false }, ..*old(self) }),
    {
        self.offset.end();
    }

    /// Holds the list where it is.
    pub fn hold(&mut self)
        ensures
            *final(self) == (ListState { offset: Coord { hold: true, ..old(self).offset }, ..*old(self) }),
    {
        self.offset.hold();
    }

    /// Moves the cursor: arrows by one row or column, by five rows or seven
    /// columns when fast; the cursor never goes below the last visible row.
    /// Any movement key holds the list.
    pub fn handle(&mut self, event: ListEvent) -> (r: Option<Action>)
        ensures
            r is None,
            *final(self) == (ListState {
                offset: moved(old(self).offset, event, old(self).visible_len_spec()),
                ..*old(self)
            }),
    {
        let n = self.visible_len();
        let last = if n == 0 {
            0
        } else {
            n - 1
        };
        self.offset.hold = true;
        let x = self.offset.x;
        let y = self.offset.y;
        match (event.fast, event.code) {
            (true, KeyCode::Left) => self.offset.x = x.saturating_sub(7),
            (true, KeyCode::Right) => self.offset.x = x.saturating_add(7),
            (true, KeyCode::Up) => self.offset.y = y.saturating_sub(5),
            (true, KeyCode::Down) => {
                let d = y.saturating_add(5);
                self.offset.y = if d < last {
                    d
                } else {
                    last
                };
            },
            (false, KeyCode::Left) => self.offset.x = x.saturating_sub(1),
            (false, KeyCode::Right) => self.offset.x = x.saturating_add(1),
            (false, KeyCode::Up) => self.offset.y = y.saturating_sub(1),
            (false, KeyCode::Down) => {
                let d = y.saturating_add(1);
                self.offset.y = if d < last {
                    d
                } else {
                    last
                };
            },
            _ => {},
        }
        None
    }
}

/// `a - b`, or zero.
pub open spec fn sat_sub(a: int, b: int) -> int {
    if a >= b {
        a - b
    } else {
        0
    }
}

/// `a + b`, or `usize::MAX`.
pub open spec fn sat_add(a: int, b: int) -> int {
    if a + b <= usize::MAX {
        a + b
    } else {
        usize::MAX as int
    }
}

/// The scroll position after a movement key, on a list of `n` visible rows.
pub open spec fn moved(offset: Coord, event: ListEvent, n: nat) -> Coord {
    let last = sat_sub(n as int, 1);
    let step_y: int = if event.fast {
        5
    } else {
        1
    };
    let step_x: int = if event.fast {
        7
    } else {
        1
    };
    let held = Coord { hold: true, ..offset };
    match event.code {
        KeyCode::Left => Coord { x: sat_sub(offset.x as int, step_x) as usize, ..held },
        KeyCode::Right => Coord { x: sat_add(offset.x as int, step_x) as usize, ..held },
        KeyCode::Up => Coord { y: sat_sub(offset.y as int, step_y) as usize, ..held },
        KeyCode::Down => Coord {
            y: if sat_add(offset.y as int, step_y) < last {
                sat_add(offset.y as int, step_y) as usize
            } else {
                last as usize
            },
            ..held
        },
        _ => held,
    }
}

/// What a movement key does to the cursor of a list with `n` visible rows:
/// it holds the list; Right moves the column one to the right (seven when
/// fast) and Left one to the left (seven when fast), not below zero and not
/// past the largest `usize`; Up moves the row one back (five when fast), not
/// below the first; Down moves it one on (five when fast), not past the last
/// row; each keeps the other coordinate, and any other key only holds.
pub proof fn list_keys_move_the_cursor(offset: Coord, event: ListEvent, n: nat)
    requires
        n <= usize::MAX,
    ensures
        ({
            let m = moved(offset, event, n);
            let sx: int = if event.fast {
                7
            } else {
                1
            };
            let sy: int = if event.fast {
                5
            } else {
                1
            };
            let last: int = if n > 0 {
                n - 1
            } else {
                0
            };
            &&& m.hold
            &&& event.code is Right ==> m.y == offset.y && m.x == (if offset.x + sx <= usize::MAX {
                offset.x + sx
            } else {
                usize::MAX as int
            })
            &&& event.code is Left ==> m.y == offset.y && m.x == (if offset.x >= sx {
                offset.x - sx
            } else {
                0
            })
            &&& event.code is Up ==> m.x == offset.x && m.y == (if offset.y >= sy {
                offset.y - sy
            } else {
                0
            })
            &&& event.code is Down ==> m.x == offset.x && m.y == (if offset.y + sy < last {
                offset.y + sy
            } else {
                last
            })
            &&& !(event.code is Right || event.code is Left || event.code is Up || event.code is Down) ==> m.x
                == offset.x && m.y == offset.y
        }),
{
}

impl<T: SearchText> ListState<T> {
    /// The filter a search for `query` leaves: positions of the items the
    /// lower-cased query finds.
    pub open spec fn search_result(items: Seq<T>, query: Seq<char>) -> Seq<usize> {
        selected(hit_flags(items, unicode_lower(query)), items.len() as int)
    }

    /// The list after the filter is brought up to date with the query: with
    /// a non-empty query the matches are shown and the cursor is held on the
    /// first row.
    pub open spec fn searched(old_state: ListState<T>, new_state: ListState<T>) -> bool {
        &&& new_state.items == old_state.items
        &&& new_state.search_query == old_state.search_query
        &&& new_state.reverse_items == old_state.reverse_items
        &&& new_state.pause_enabled == old_state.pause_enabled
        &&& new_state.paused == old_state.paused
        &&& new_state.window_start == old_state.window_start
        &&& match old_state.search_query {
            Some(q) => if q@.len() == 0 {
                &&& new_state.filtered_indices is None
                &&& new_state.offset == old_state.offset
            } else {
                &&& new_state.filtered_indices is Some
                &&& new_state.filtered_indices->0@ == Self::search_result(old_state.items@, q@)
                &&& new_state.offset == (Coord { x: 0, y: 0, hold: true })
            },
            None => {
                &&& new_state.filtered_indices is None
                &&& new_state.offset == old_state.offset
            },
        }
    }

    fn apply_search(&mut self)
        ensures
            Self::searched(*old(self), *final(self)),
            filter_ok(final(self).filtered_indices, final(self).items@.len()),
    {
        let query = match &self.search_query {
            Some(q) => {
                if q.unicode_len() == 0 {
                    self.filtered_indices = None;
                    return ;
                }
                to_lowercase(q.as_str())
            },
            None => {
                self.filtered_indices = None;
                return ;
            },
        };
        let n = self.items.len();
        let ghost flags = hit_flags(self.items@, query@);
        let mut found: Vec<usize> = Vec::new();
        let mut i: usize = 0;
        while i < self.items.len()
            invariant
                i <= self.items@.len(),
                flags == hit_flags(self.items@, query@),
                found@ == selected(flags, i as int),
            decreases self.items@.len() - i,
        {
            if self.items[i].is_hit(query.as_str()) {
                found.push(i);
            }
            i = i + 1;
        }
        proof {
            lemma_selected(flags, self.items@.len() as int);
        }
        self.filtered_indices = Some(found);
        self.offset = Coord { x: 0, y: 0, hold: true };
    }

    /// Adds a character to the query, when searching, and filters again.
    pub fn input_search_char(&mut self, ch: char)
        ensures
            match old(self).search_query {
                Some(q) => Self::searched(
                    ListState { search_query: Some(final(self).search_query->0), ..*old(self) },
                    *final(self),
                ) && final(self).search_query->0@ == q@.push(ch),
                None => *final(self) == *old(self),
            },
            filter_ok(final(self).filtered_indices, final(self).items@.len()) || old(self).search_query is None,
    {
        match self.search_query.take() {
            Some(mut q) => {
                push_char(&mut q, ch);
                self.search_query = Some(q);
                self.apply_search();
            },
            None => {},
        }
    }

    /// Removes the last character of the query, when searching, and filters
    /// again.
    pub fn backspace_search(&mut self)
        ensures
            match old(self).search_query {
                Some(q) => Self::searched(
                    ListState { search_query: Some(final(self).search_query->0), ..*old(self) },
                    *final(self),
                ) && final(self).search_query->0@ == (if q@.len() > 0 {
                    q@.drop_last()
                } else {
                    q@
                }),
                None => *final(self) == *old(self),
            },
            filter_ok(final(self).filtered_indices, final(self).items@.len()) || old(self).search_query is None,
    {
        match self.search_query.take() {
            Some(mut q) => {
                let _ = pop_char(&mut q);
                self.search_query = Some(q);
                self.apply_search();
            },
            None => {},
        }
    }

    /// Adds a new item. A held list keeps its cursor on the same item.
    pub fn push(&mut self, item: T)
        requires
            old(self).offset.hold ==> old(self).offset.y < usize::MAX,
        ensures
            Self::searched(
                ListState {
                    items: final(self).items,
                    offset: if old(self).offset.hold {
                        Coord { y: (old(self).offset.y + 1) as usize, ..old(self).offset }
                    } else {
                        old(self).offset
                    },
                    ..*old(self)
                },
                *final(self),
            ),
            final(self).items@ == old(self).items@.push(item),
    {
        self.items.push(item);
        if self.offset.hold {
            self.offset.y = self.offset.y + 1;
        }
        self.apply_search();
    }

    /// Adds a new item and drops the oldest ones beyond `cap` items (no limit
    /// when `cap` is zero).
    pub fn push_capped(&mut self, item: T, cap: usize)
        requires
            old(self).offset.hold ==> old(self).offset.y < usize::MAX,
        ensures
            ({
                let all = old(self).items@.push(item);
                let over = cap > 0 && all.len() > cap;
                let kept = if over {
                    all.subrange(all.len() - cap, all.len() as int)
                } else {
                    all
                };
                let y0 = if old(self).offset.hold {
                    old(self).offset.y + 1
                } else {
                    old(self).offset.y as int
                };
                let y = if over && y0 > sat_sub(kept.len() as int, 1) {
                    sat_sub(kept.len() as int, 1)
                } else {
                    y0
                };
                &&& final(self).items@ == kept
                &&& Self::searched(
                    ListState {
                        items: final(self).items,
                        offset: Coord { y: y as usize, ..old(self).offset },
                        ..*old(self)
                    },
                    *final(self),
                )
            }),
    {
        self.items.push(item);
        if self.offset.hold {
            self.offset.y = self.offset.y + 1;
        }
        if cap > 0 && self.items.len() > cap {
            let overflow = self.items.len() - cap;
            let ghost all = self.items@;
            let kept = self.items.split_off(overflow);
            self.items = kept;
            assert(self.items@ == all.subrange(all.len() - cap, all.len() as int));
            let last = self.items.len() - 1;
            if self.offset.y > last {
                self.offset.y = last;
            }
        }
        self.apply_search();
    }

    /// Removes every item and resets the cursor and the filter.
    pub fn clear(&mut self)
        ensures
            final(self).items@.len() == 0,
            Self::searched(
                ListState {
                    items: final(self).items,
                    offset: Coord { x: 0, y: 0, hold: false },
                    window_start: 0,
                    ..*old(self)
                },
                *final(self),
            ),
    {
        self.items.clear();
        self.offset = Coord { x: 0, y: 0, hold: false };
        self.window_start = 0;
        self.apply_search();
    }

    /// Replaces the items and filters again.
    pub fn replace_items(&mut self, items: Vec<T>)
        ensures
            Self::searched(ListState { items, ..*old(self) }, *final(self)),
    {
        self.items = items;
        self.apply_search();
    }
}

/// Ending a search puts the cursor of a newest-first list back on the item it
/// was on while the list was filtered.
pub proof fn cancel_search_keeps_current_item<T>(before: ListState<T>, after: ListState<T>)
    requires
        before.reverse_items,
        filter_ok(before.filtered_indices, before.items@.len()),
        before.filtered_indices is Some,
        before.current_index() is Some,
        after.items == before.items,
        after.reverse_items,
        after.filtered_indices is None,
        after.offset.y == before.items@.len() - (before.current_index()->0 + 1),
    ensures
        after.current_index() == before.current_index(),
{
    let ix = before.filtered_indices->0@;
    let n = ix.len() as int;
    let v = n - (before.offset.y + 1);
    assert(0 <= v < n);
    assert(ix[v] < before.items@.len()) by {
        if v + 1 < n {
            assert(ix[v] < ix[v + 1]);
        } else if v > 0 {
            assert(ix[0] < ix[v]);
        }
    }
}

/// A new item at the bottom of a held, unfiltered, newest-first list does not
/// move the cursor off the item it is on.
pub proof fn push_keeps_held_cursor<T>(before: ListState<T>, after: ListState<T>)
    requires
        before.reverse_items,
        before.offset.hold,
        before.filtered_indices is None,
        after.filtered_indices is None,
        after.reverse_items,
        after.items@.len() == before.items@.len() + 1,
        after.offset.y == before.offset.y + 1,
    ensures
        after.current_index() == before.current_index(),
{
}

/// A filter brought up to date with the query holds ascending positions of
/// items.
pub proof fn searched_filter_ok<T: SearchText>(before: ListState<T>, after: ListState<T>)
    requires
        ListState::<T>::searched(before, after),
        before.items@.len() <= usize::MAX,
    ensures
        filter_ok(after.filtered_indices, after.items@.len()),
        filter_in_range(after.filtered_indices, after.items@.len()),
{
    match before.search_query {
        Some(q) => {
            if q@.len() > 0 {
                let flags = hit_flags(before.items@, unicode_lower(q@));
                assert(flags.len() == before.items@.len());
                lemma_selected(flags, before.items@.len() as int);
            }
        },
        None => {},
    }
}


/// The length of a vector fits in a `usize`.
pub proof fn lemma_vec_len_fits<T>(v: &Vec<T>)
    ensures
        v@.len() <= usize::MAX,
{
    assert(v.len() == v@.len());
}

/// A row of a drawn list: the item it shows, its number where the list is
/// numbered, and whether the cursor is on it.
#[derive(Debug, Clone, Copy, PartialEq, Eq)]
pub struct DrawnRow {
    pub item_index: usize,
    pub number: Option<usize>,
    pub focused: bool,
}

/// The window start moved only as far as keeps `cursor` among `height`
/// rows, then kept within a list of `num` rows.
pub open spec fn list_window(prev: int, cursor: int, height: int, num: int) -> int {
    let s = if cursor < prev {
        cursor
    } else if height > 0 && cursor >= prev + height {
        cursor + 1 - height
    } else {
        prev
    };
    let h = if height >= 1 {
        height
    } else {
        1
    };
    let hi = if num >= h {
        num - h
    } else {
        0
    };
    if s <= hi {
        s
    } else {
        hi
    }
}

/// The row under the cursor is always drawn: the window starts at or before
/// it and reaches past it, and never starts beyond the last full window.
pub proof fn list_window_keeps_cursor(prev: int, cursor: int, height: int, num: int)
    requires
        0 <= prev,
        0 <= cursor < num,
        height > 0,
    ensures
        list_window(prev, cursor, height, num) <= cursor < list_window(prev, cursor, height, num) + height,
        0 <= list_window(prev, cursor, height, num),
        num >= height ==> list_window(prev, cursor, height, num) <= num - height,
{
}

impl<T> ListState<T> {
    /// The row of the cursor among the visible items, kept on the last one.
    pub open spec fn cursor_row(&self) -> int {
        let n = self.visible_len_spec() as int;
        if self.offset.y + 1 > n {
            if n > 0 {
                n - 1
            } else {
                0
            }
        } else {
            self.offset.y as int
        }
    }

    /// The item drawn on row `row` of the visible items.
    pub open spec fn drawn_item(&self, row: int) -> int {
        let n = self.visible_len_spec() as int;
        let v = if self.reverse_items {
            n - 1 - row
        } else {
            row
        };
        match self.filtered_indices {
            Some(ix) => ix@[v] as int,
            None => v,
        }
    }

    /// The rows drawn from visible row `start` on, at most `height` of them.
    pub open spec fn drawn_rows_spec(&self, start: int, height: int) -> Seq<DrawnRow> {
        let n = self.visible_len_spec() as int;
        let count = if start >= n {
            0
        } else if n - start < height {
            n - start
        } else {
            height
        };
        Seq::new(
            count as nat,
            |i: int|
                DrawnRow {
                    item_index: self.drawn_item(start + i) as usize,
                    number: if self.with_index {
                        Some(
                            (if self.reverse_index {
                                n - i - start
                            } else {
                                i + start + 1
                            }) as usize,
                        )
                    } else {
                        None
                    },
                    focused: start + i == self.cursor_row(),
                },
        )
    }

    /// The first row to draw with `height` rows on screen; it is kept for
    /// the next draw.
    pub fn settle_window(&mut self, height: usize) -> (r: usize)
        ensures
            r as int == list_window(
                old(self).window_start as int,
                old(self).cursor_row(),
                height as int,
                old(self).visible_len_spec() as int,
            ),
            *final(self) == (ListState { window_start: r, ..*old(self) }),
    {
        let num = self.visible_len();
        let cursor = if self.offset.y >= num {
            if num > 0 {
                num - 1
            } else {
                0
            }
        } else {
            self.offset.y
        };
        let prev = self.window_start;
        let mut start = if cursor < prev {
            cursor
        } else if height > 0 && cursor - prev >= height {
            cursor - (height - 1)
        } else {
            prev
        };
        let h = if height >= 1 {
            height
        } else {
            1
        };
        let hi = if num >= h {
            num - h
        } else {
            0
        };
        if start > hi {
            start = hi;
        }
        self.window_start = start;
        start
    }

    /// The rows to draw from visible row `start` on, with `height` rows on
    /// screen: newest item first where the list is reversed, each numbered
    /// where the list is numbered (counting down from the number of rows
    /// where the numbers are reversed), the cursor's row marked.
    pub fn drawn_rows(&self, start: usize, height: usize) -> (r: Vec<DrawnRow>)
        requires
            filter_in_range(self.filtered_indices, self.items@.len()),
        ensures
            r@ == self.drawn_rows_spec(start as int, height as int),
            forall|i: int| 0 <= i < r@.len() ==> (#[trigger] r@[i]).item_index < self.items@.len(),
    {
        let num = self.visible_len();
        let cursor = if self.offset.y >= num {
            if num > 0 {
                num - 1
            } else {
                0
            }
        } else {
            self.offset.y
        };
        let count = if start >= num {
            0
        } else if num - start < height {
            num - start
        } else {
            height
        };
        let mut r: Vec<DrawnRow> = Vec::new();
        let mut i: usize = 0;
        while i < count
            invariant
                i <= count,
                count as int == (if start >= num {
                    0
                } else if num - start < height {
                    num - start
                } else {
                    height as int
                }),
                num == self.visible_len_spec(),
                cursor as int == self.cursor_row(),
                filter_in_range(self.filtered_indices, self.items@.len()),
                r@ == self.drawn_rows_spec(start as int, height as int).take(i as int),
                forall|k: int| 0 <= k < r@.len() ==> (#[trigger] r@[k]).item_index < self.items@.len(),
            decreases count - i,
        {
            let row = start + i;
            let v = if self.reverse_items {
                num - 1 - row
            } else {
                row
            };
            let item_index = match self.visible_item_index(v) {
                Some(x) => x,
                None => v,
            };
            let number = if self.with_index {
                Some(
                    if self.reverse_index {
                        num - i - start
                    } else {
                        i + start + 1
                    },
                )
            } else {
                None
            };
            let drawn = DrawnRow { item_index, number, focused: row == cursor };
            proof {
                assert(drawn == self.drawn_rows_spec(start as int, height as int)[i as int]);
            }
            r.push(drawn);
            proof {
                assert(r@ =~= self.drawn_rows_spec(start as int, height as int).take(i + 1));
            }
            i = i + 1;
        }
        proof {
            assert(self.drawn_rows_spec(start as int, height as int).take(count as int) =~= self.drawn_rows_spec(
                start as int,
                height as int,
            ));
        }
        r
    }

    /// The text drawn in place of the rows when nothing is shown.
    pub fn placeholder_text(&self) -> (r: String)
        ensures
            r@ == (match self.placeholder {
                Some(p) => p@,
                None => "Nothing's here yet"@,
            }),
    {
        match &self.placeholder {
            Some(p) => p.clone(),
            None => String::from_str("Nothing's here yet"),
        }
    }
}

} // verus!
