//! Scrolling popups: the window of a long text that a popup shows, and its
//! scroll bars, where the thumb sits on a track of a given length for a
//! view of some rows or columns of the text.

use vstd::prelude::*;

use crate::text::{chars_of, push_char, split_chars, split_on, string_of_chars};

verus! {

/// The length of the thumb: the share of the track that the visible part
/// takes of the whole, at least one cell and at most the track.
pub open spec fn thumb_len(visible: nat, total: nat, len: nat) -> nat {
    let share = (len * visible / total) as nat;
    if share < 1 {
        1
    } else if share > len {
        len
    } else {
        share
    }
}

/// Where the thumb starts: the share of the free track that the offset
/// (clamped to the largest one) takes of the largest offset.
pub open spec fn thumb_start(offset: nat, visible: nat, total: nat, len: nat) -> nat {
    let max_offset = (total - visible) as nat;
    let clamped = if offset < max_offset {
        offset
    } else {
        max_offset
    };
    let free = (len - thumb_len(visible, total, len)) as nat;
    let start = (clamped * free / max_offset) as nat;
    if start < free {
        start
    } else {
        free
    }
}

/// The cells of a scroll bar of `len` cells for a view of `visible` of
/// `total` rows (or columns) scrolled by `offset`: all thumb when everything
/// is visible, else a thumb placed by [`thumb_start`] on the track.
pub open spec fn scrollbar_cells(
    offset: nat,
    visible: nat,
    total: nat,
    len: nat,
    track: char,
    thumb: char,
) -> Seq<char> {
    if len == 0 {
        Seq::empty()
    } else if total <= visible || visible == 0 {
        Seq::new(len, |i: int| thumb)
    } else {
        let start = thumb_start(offset, visible, total, len);
        let size = thumb_len(visible, total, len);
        Seq::new(len, |i: int| if start <= i < start + size { thumb } else { track })
    }
}

/// `len * part / whole` is at most `len` when `part` is less than `whole`.
proof fn lemma_share_at_most(len: int, part: int, whole: int)
    requires
        len >= 0,
        0 <= part < whole,
    ensures
        len * part / whole <= len,
        len * part / whole >= 0,
{
    vstd::arithmetic::mul::lemma_mul_inequality(part, whole, len);
    vstd::arithmetic::mul::lemma_mul_is_commutative(part, len);
    vstd::arithmetic::mul::lemma_mul_is_commutative(whole, len);
    vstd::arithmetic::div_mod::lemma_div_is_ordered(len * part, len * whole, whole);
    vstd::arithmetic::div_mod::lemma_div_by_multiple(len, whole);
    vstd::arithmetic::mul::lemma_mul_nonnegative(len, part);
    vstd::arithmetic::div_mod::lemma_div_pos_is_pos(len * part, whole);
}

/// The products the scroll bar computes fit in a `usize`.
pub open spec fn scrollbar_in_range(offset: usize, visible: usize, total: usize, len: usize) -> bool {
    &&& len * visible <= usize::MAX
    &&& offset * len <= usize::MAX
}

/// The scroll bar of `len` cells for a view of `visible` of `total` rows
/// (or columns) scrolled by `offset`.
pub fn scrollbar(offset: usize, visible: usize, total: usize, len: usize, track: char, thumb: char) -> (r:
    String)
    requires
        scrollbar_in_range(offset, visible, total, len),
    ensures
        r@ == scrollbar_cells(offset as nat, visible as nat, total as nat, len as nat, track, thumb),
{
    let mut out = String::new();
    if len == 0 {
        return out;
    }
    if total <= visible || visible == 0 {
        let mut k: usize = 0;
        while k < len
            invariant
                k <= len,
                out@ == Seq::new(k as nat, |i: int| thumb),
            decreases len - k,
        {
            push_char(&mut out, thumb);
            assert(Seq::new((k + 1) as nat, |i: int| thumb) =~= Seq::new(k as nat, |i: int| thumb).push(thumb));
            k = k + 1;
        }
        return out;
    }
    let share = len * visible / total;
    proof {
        lemma_share_at_most(len as int, visible as int, total as int);
    }
    let size = if share < 1 {
        1
    } else if share > len {
        len
    } else {
        share
    };
    let max_offset = total - visible;
    let clamped = if offset < max_offset {
        offset
    } else {
        max_offset
    };
    let free = len - size;
    proof {
        vstd::arithmetic::mul::lemma_mul_inequality(clamped as int, offset as int, free as int);
        vstd::arithmetic::mul::lemma_mul_is_commutative(offset as int, free as int);
        vstd::arithmetic::mul::lemma_mul_is_commutative(offset as int, len as int);
        vstd::arithmetic::mul::lemma_mul_inequality(free as int, len as int, offset as int);
    }
    let start0 = clamped * free / max_offset;
    let start = if start0 < free {
        start0
    } else {
        free
    };
    assert(start == thumb_start(offset as nat, visible as nat, total as nat, len as nat));
    let mut k: usize = 0;
    while k < len
        invariant
            k <= len,
            start + size <= len,
            out@ == Seq::new(k as nat, |i: int| if start <= i < start + size { thumb } else { track }),
        decreases len - k,
    {
        let c = if start <= k && k < start + size {
            thumb
        } else {
            track
        };
        push_char(&mut out, c);
        assert(Seq::new((k + 1) as nat, |i: int| if start <= i < start + size { thumb } else { track })
            =~= Seq::new(k as nat, |i: int| if start <= i < start + size { thumb } else { track }).push(c));
        k = k + 1;
    }
    out
}

/// The thumb of a scroll bar lies on its track; it sits at the top when
/// the view is not scrolled and at the bottom when it is scrolled as far as
/// it goes.
pub proof fn thumb_stays_on_track(offset: nat, visible: nat, total: nat, len: nat)
    requires
        len > 0,
        0 < visible < total,
    ensures
        1 <= thumb_len(visible, total, len) <= len,
        thumb_start(offset, visible, total, len) + thumb_len(visible, total, len) <= len,
        offset == 0 ==> thumb_start(offset, visible, total, len) == 0,
        offset >= total - visible ==> thumb_start(offset, visible, total, len) + thumb_len(
            visible,
            total,
            len,
        ) == len,
{
    let max_offset = (total - visible) as nat;
    let free = (len - thumb_len(visible, total, len)) as nat;
    let clamped = if offset < max_offset {
        offset
    } else {
        max_offset
    };
    lemma_share_at_most(free as int, clamped as int, max_offset as int + 1);
    vstd::arithmetic::mul::lemma_mul_inequality(clamped as int, max_offset as int, free as int);
    vstd::arithmetic::mul::lemma_mul_is_commutative(clamped as int, free as int);
    vstd::arithmetic::mul::lemma_mul_is_commutative(max_offset as int, free as int);
    vstd::arithmetic::div_mod::lemma_div_is_ordered(
        (clamped * free) as int,
        (max_offset * free) as int,
        max_offset as int,
    );
    vstd::arithmetic::div_mod::lemma_div_by_multiple(free as int, max_offset as int);
    if offset == 0 {
        assert(0 * free == 0);
    }
}

/// `l` without one trailing carriage return.
pub open spec fn strip_cr(l: Seq<char>) -> Seq<char> {
    if l.len() > 0 && l.last() == '\r' {
        l.drop_last()
    } else {
        l
    }
}

/// The lines of a text, as `str::lines` gives them: the text split at each
/// line feed, a carriage return before a line feed dropped, and no empty
/// line after a final line feed (so no line at all for an empty text).
pub open spec fn lines_of(s: Seq<char>) -> Seq<Seq<char>> {
    let p = split_on(s, '\n');
    let ended = Seq::new((p.len() - 1) as nat, |i: int| strip_cr(p[i]));
    if p.last().len() == 0 {
        ended
    } else {
        ended.push(p.last())
    }
}

/// The lines of a text; see [`lines_of`].
pub fn text_lines(s: &str) -> (r: Vec<Vec<char>>)
    ensures
        r@.map_values(|l: Vec<char>| l@) == lines_of(s@),
{
    let chars = chars_of(s);
    let pieces = split_chars(&chars, '\n');
    let ghost p = split_on(s@, '\n');
    assert(pieces@.map_values(|x: Vec<char>| x@) == p);
    let n = pieces.len();
    let mut out: Vec<Vec<char>> = Vec::new();
    let mut i: usize = 0;
    while i + 1 < n
        invariant
            n == pieces@.len(),
            n >= 1,
            i + 1 <= n,
            p == pieces@.map_values(|x: Vec<char>| x@),
            out@.map_values(|l: Vec<char>| l@) == Seq::new(i as nat, |k: int| strip_cr(p[k])),
        decreases n - i,
    {
        let piece = &pieces[i];
        assert(piece@ == p[i as int]);
        let mut line: Vec<char> = Vec::new();
        let len = piece.len();
        let keep = if len > 0 && piece[len - 1] == '\r' {
            len - 1
        } else {
            len
        };
        let mut k: usize = 0;
        while k < keep
            invariant
                keep <= len == piece@.len(),
                k <= keep,
                line@ == piece@.take(k as int),
            decreases keep - k,
        {
            line.push(piece[k]);
            assert(piece@.take(k + 1) =~= piece@.take(k as int).push(piece@[k as int]));
            k = k + 1;
        }
        assert(line@ =~= strip_cr(p[i as int]));
        let ghost before = out@;
        let ghost lv = line@;
        out.push(line);
        assert(out@.map_values(|l: Vec<char>| l@) =~= before.map_values(|l: Vec<char>| l@).push(lv));
        assert(out@.map_values(|l: Vec<char>| l@) =~= Seq::new((i + 1) as nat, |k: int| strip_cr(p[k])));
        i = i + 1;
    }
    let last = &pieces[n - 1];
    assert(last@ == p.last());
    if last.len() > 0 {
        let mut copy: Vec<char> = Vec::new();
        let mut k: usize = 0;
        while k < last.len()
            invariant
                k <= last@.len(),
                copy@ == last@.take(k as int),
            decreases last@.len() - k,
        {
            copy.push(last[k]);
            assert(last@.take(k + 1) =~= last@.take(k as int).push(last@[k as int]));
            k = k + 1;
        }
        assert(copy@ =~= last@);
        let ghost before = out@;
        out.push(copy);
        assert(out@.map_values(|l: Vec<char>| l@) =~= before.map_values(|l: Vec<char>| l@).push(last@));
        assert(out@.map_values(|l: Vec<char>| l@) =~= Seq::new((n - 1) as nat, |k: int| strip_cr(p[k])).push(p.last()));
    }
    out
}

/// The part of a line shown `width` characters wide from column `x`,
/// ending in a line feed.
pub open spec fn window_line(l: Seq<char>, x: nat, width: nat) -> Seq<char> {
    let rest = if x <= l.len() {
        l.skip(x as int)
    } else {
        Seq::empty()
    };
    (if width <= rest.len() {
        rest.take(width as int)
    } else {
        rest
    }) + seq!['\n']
}

/// The texts one after the other.
pub open spec fn concat_all(parts: Seq<Seq<char>>) -> Seq<char>
    decreases parts.len(),
{
    if parts.len() == 0 {
        Seq::empty()
    } else {
        concat_all(parts.drop_last()) + parts.last()
    }
}

/// What a popup scrolled to column `x` and line `y` shows of `body`, `width`
/// characters wide: from line `y` on, each line's window, each ending in a
/// line feed.
pub open spec fn scrolled_spec(body: Seq<char>, x: nat, y: nat, width: nat) -> Seq<char> {
    let ls = lines_of(body);
    let shown = if y <= ls.len() {
        ls.skip(y as int)
    } else {
        Seq::empty()
    };
    concat_all(Seq::new(shown.len(), |i: int| window_line(shown[i], x, width)))
}

/// What a scrolled popup shows of its body; see [`scrolled_spec`].
pub fn scrolled_text(body: &str, x_offset: usize, y_offset: usize, width: usize) -> (r: String)
    ensures
        r@ == scrolled_spec(body@, x_offset as nat, y_offset as nat, width as nat),
{
    let lines = text_lines(body);
    let ghost ls = lines_of(body@);
    let n = lines.len();
    let mut out = String::new();
    let mut i: usize = y_offset;
    let ghost shown = if y_offset <= ls.len() {
        ls.skip(y_offset as int)
    } else {
        Seq::empty()
    };
    let ghost all = Seq::new(shown.len(), |k: int| window_line(shown[k], x_offset as nat, width as nat));
    if y_offset < n {
        while i < n
            invariant
                y_offset <= i <= n,
                n == lines@.len(),
                ls == lines@.map_values(|l: Vec<char>| l@),
                shown == ls.skip(y_offset as int),
                all == Seq::new(shown.len(), |k: int| window_line(shown[k], x_offset as nat, width as nat)),
                out@ == concat_all(all.take(i - y_offset)),
            decreases n - i,
        {
            let line = &lines[i];
            assert(line@ == shown[i - y_offset]);
            let len = line.len();
            let start = if x_offset <= len {
                x_offset
            } else {
                len
            };
            let end = if width <= len - start {
                start + width
            } else {
                len
            };
            let ghost before = out@;
            let mut k: usize = start;
            while k < end
                invariant
                    start <= k <= end <= len == line@.len(),
                    out@ == before + line@.subrange(start as int, k as int),
                decreases end - k,
            {
                push_char(&mut out, line[k]);
                assert(line@.subrange(start as int, k + 1) =~= line@.subrange(start as int, k as int).push(line@[k as int]));
                k = k + 1;
            }
            push_char(&mut out, '\n');
            proof {
                let w = window_line(shown[i - y_offset], x_offset as nat, width as nat);
                assert(w =~= line@.subrange(start as int, end as int) + seq!['\n']);
                assert(all.take(i + 1 - y_offset).drop_last() =~= all.take(i - y_offset));
                assert(all.take(i + 1 - y_offset).last() == w);
                assert(out@ =~= before + w);
            }
            i = i + 1;
        }
        assert(all.take(n - y_offset) =~= all);
    } else {
        assert(all =~= Seq::<Seq<char>>::empty());
    }
    out
}

/// The number of lines of a body (one at least) and the length of its
/// longest line (one at least), which its scroll bars span.
pub open spec fn extent_spec(body: Seq<char>) -> (nat, nat) {
    let ls = lines_of(body);
    (if ls.len() > 0 {
        ls.len()
    } else {
        1
    }, longest(ls))
}

/// The length of the longest line, one at least.
pub open spec fn longest(ls: Seq<Seq<char>>) -> nat
    decreases ls.len(),
{
    if ls.len() == 0 {
        1
    } else {
        let rest = longest(ls.drop_last());
        if ls.last().len() > rest {
            ls.last().len()
        } else {
            rest
        }
    }
}

/// The extent of a body; see [`extent_spec`].
pub fn scroll_extent(body: &str) -> (r: (usize, usize))
    ensures
        (r.0 as nat, r.1 as nat) == extent_spec(body@),
{
    let lines = text_lines(body);
    let ghost ls = lines_of(body@);
    let mut widest: usize = 1;
    let mut i: usize = 0;
    while i < lines.len()
        invariant
            i <= lines@.len(),
            ls == lines@.map_values(|l: Vec<char>| l@),
            widest == longest(ls.take(i as int)),
        decreases lines@.len() - i,
    {
        assert(ls.take(i + 1).drop_last() =~= ls.take(i as int));
        assert(ls.take(i + 1).last() == lines@[i as int]@);
        if lines[i].len() > widest {
            widest = lines[i].len();
        }
        i = i + 1;
    }
    assert(ls.take(lines@.len() as int) =~= ls);
    let count = if lines.len() > 0 {
        lines.len()
    } else {
        1
    };
    (count, widest)
}

} // verus!
