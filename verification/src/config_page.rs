//! The lines of the configuration panel: titled sections of label and value
//! rows, with the server address wrapped over as many lines as it needs.

use vstd::prelude::*;

use crate::text::{chars_of, owned, push_char, str_eq};

verus! {

/// `n` spaces.
pub open spec fn spaces(n: nat) -> Seq<char> {
    Seq::new(n, |i: int| ' ')
}

/// `n` dashes.
pub open spec fn dashes(n: nat) -> Seq<char> {
    Seq::new(n, |i: int| '-')
}

/// `s` cut into pieces of `size` characters (the last one may be shorter),
/// joined by `sep`.
pub open spec fn chunks_joined(s: Seq<char>, size: nat, sep: Seq<char>) -> Seq<char>
    recommends
        size > 0,
    decreases s.len(),
{
    if size == 0 || s.len() <= size {
        s
    } else {
        s.take(size as int) + sep + chunks_joined(s.skip(size as int), size, sep)
    }
}

/// `label`, a space and `value`, where `value` is cut so that no line is
/// longer than `width` (and at least one character of `value` fits on each
/// line); the lines after the first are indented under the start of `value`.
pub open spec fn wrapped_value(label: Seq<char>, value: Seq<char>, width: nat) -> Seq<char> {
    let prefix = label.push(' ');
    let indent = prefix.len();
    let full = if width > indent + 1 { width } else { indent + 1 };
    prefix + chunks_joined(value, (full - indent) as nat, seq!['\n'] + spaces(indent))
}

/// Appends `s[from..to]` to `out`.
fn push_range(out: &mut String, s: &Vec<char>, from: usize, to: usize)
    requires
        from <= to <= s@.len(),
    ensures
        final(out)@ == old(out)@ + s@.subrange(from as int, to as int),
{
    let mut j = from;
    while j < to
        invariant
            from <= j <= to <= s@.len(),
            out@ == old(out)@ + s@.subrange(from as int, j as int),
        decreases to - j,
    {
        push_char(out, s[j]);
        assert(s@.subrange(from as int, j + 1) =~= s@.subrange(from as int, j as int).push(
            s@[j as int],
        ));
        j = j + 1;
    }
}

/// Appends `n` copies of `c` to `out`.
pub(crate) fn push_repeated(out: &mut String, c: char, n: usize)
    ensures
        final(out)@ == old(out)@ + Seq::new(n as nat, |i: int| c),
{
    let mut k: usize = 0;
    while k < n
        invariant
            k <= n,
            out@ == old(out)@ + Seq::new(k as nat, |i: int| c),
        decreases n - k,
    {
        push_char(out, c);
        assert(Seq::new((k + 1) as nat, |i: int| c) =~= Seq::new(k as nat, |i: int| c).push(c));
        k = k + 1;
    }
}

/// `label` and `value` on as many lines as `value` needs at `width`
/// characters per line.
pub fn format_wrapped_value(label: &str, value: &str, width: usize) -> (r: String)
    requires
        label@.len() + 2 <= usize::MAX,
    ensures
        r@ == wrapped_value(label@, value@, width as nat),
{
    let mut out = owned(label);
    push_char(&mut out, ' ');
    let indent = label.unicode_len() + 1;
    let full = if width > indent + 1 {
        width
    } else {
        indent + 1
    };
    let size = full - indent;
    let v = chars_of(value);
    let n = v.len();
    let ghost prefix = label@.push(' ');
    let ghost sep = seq!['\n'] + spaces(indent as nat);
    assert(prefix.len() == indent);
    let mut i: usize = 0;
    assert(v@.skip(0) =~= v@);
    while n - i > size
        invariant
            size > 0,
            n == v@.len(),
            i <= n,
            v@ == value@,
            sep == seq!['\n'] + spaces(indent as nat),
            out@ + chunks_joined(v@.skip(i as int), size as nat, sep) == prefix
                + chunks_joined(v@, size as nat, sep),
        decreases n - i,
    {
        let ghost before = out@;
        push_range(&mut out, &v, i, i + size);
        push_char(&mut out, '\n');
        push_repeated(&mut out, ' ', indent);
        proof {
            let rest = v@.skip(i as int);
            assert(rest.take(size as int) =~= v@.subrange(i as int, i + size));
            assert(rest.skip(size as int) =~= v@.skip(i + size));
            assert(Seq::new(indent as nat, |k: int| ' ') =~= spaces(indent as nat));
            assert(out@ =~= before + rest.take(size as int) + sep);
            assert(chunks_joined(rest, size as nat, sep) == rest.take(size as int) + sep
                + chunks_joined(rest.skip(size as int), size as nat, sep));
            assert(out@ + chunks_joined(v@.skip(i + size), size as nat, sep) =~= before
                + chunks_joined(rest, size as nat, sep));
        }
        i = i + size;
    }
    let ghost before = out@;
    push_range(&mut out, &v, i, n);
    proof {
        let rest = v@.skip(i as int);
        assert(rest =~= v@.subrange(i as int, n as int));
        assert(chunks_joined(rest, size as nat, sep) == rest);
        assert(v@.skip(0) =~= v@);
    }
    out
}

/// `s` followed by spaces up to `n` characters; `s` itself when it is longer.
pub open spec fn pad_end(s: Seq<char>, n: nat) -> Seq<char> {
    if s.len() < n {
        s + spaces((n - s.len()) as nat)
    } else {
        s
    }
}

/// `s` preceded by spaces up to `n` characters; `s` itself when it is longer.
pub open spec fn pad_start(s: Seq<char>, n: nat) -> Seq<char> {
    if s.len() < n {
        spaces((n - s.len()) as nat) + s
    } else {
        s
    }
}

/// The width of the label column of the configuration panel.
pub const LABEL_WIDTH: u16 = 15;

/// The text of one row: the server address wrapped, any other value right
/// aligned after a label column.
pub open spec fn item_text(label: Seq<char>, content: Seq<char>, width: u16) -> Seq<char> {
    if label == "Server"@ {
        wrapped_value(label, content, width as nat)
    } else {
        pad_end(label, LABEL_WIDTH as nat) + pad_start(content, (width - LABEL_WIDTH) as nat)
    }
}

/// One row of the configuration panel.
#[derive(Debug, Clone)]
pub enum ConfigLine {
    Title(String),
    Item { label: String, content: String },
    Separator,
    Empty,
}

/// Whether a row can be laid out at `width`: a value row that is not the
/// server address needs room for the label column.
pub open spec fn line_fits(line: ConfigLine, width: u16) -> bool {
    match line {
        ConfigLine::Item { label, content } => label@ == "Server"@ || width >= LABEL_WIDTH,
        _ => true,
    }
}

/// The text of a row at `width` characters.
pub open spec fn line_text(line: ConfigLine, width: u16) -> Seq<char> {
    match line {
        ConfigLine::Title(title) => title@,
        ConfigLine::Item { label, content } => item_text(label@, content@, width),
        ConfigLine::Separator => dashes(width as nat),
        ConfigLine::Empty => spaces(width as nat),
    }
}

/// The rows that open a section titled `title`: a blank row, the title and a
/// rule.
pub open spec fn is_head(lines: Seq<ConfigLine>, title: Seq<char>) -> bool {
    &&& lines.len() == 3
    &&& lines[0] == ConfigLine::Empty
    &&& lines[1] matches ConfigLine::Title(t) && t@ == title
    &&& lines[2] == ConfigLine::Separator
}

impl ConfigLine {
    /// The rows that open a section titled `title`.
    pub fn title(title: &str) -> (r: Vec<ConfigLine>)
        ensures
            is_head(r@, title@),
    {
        let mut r: Vec<ConfigLine> = Vec::new();
        r.push(ConfigLine::Empty);
        r.push(ConfigLine::Title(owned(title)));
        r.push(ConfigLine::Separator);
        r
    }

    /// The text of this row at `width` characters.
    pub fn text(&self, width: u16) -> (r: String)
        requires
            line_fits(*self, width),
            match *self {
                ConfigLine::Item { label, content } => label@.len() + 2 <= usize::MAX,
                _ => true,
            },
        ensures
            r@ == line_text(*self, width),
    {
        match self {
            ConfigLine::Title(title) => owned(title.as_str()),
            ConfigLine::Item { label, content } => {
                proof {
                    reveal_strlit("Server");
                }
                if str_eq(label.as_str(), "Server") {
                    format_wrapped_value(label.as_str(), content.as_str(), width as usize)
                } else {
                    let mut out = owned(label.as_str());
                    let len = label.unicode_len();
                    if len < 15 {
                        push_repeated(&mut out, ' ', 15 - len);
                    }
                    let room: usize = (width - LABEL_WIDTH) as usize;
                    let clen = content.unicode_len();
                    if clen < room {
                        push_repeated(&mut out, ' ', room - clen);
                    }
                    let ghost before = out@;
                    out.append(content.as_str());
                    proof {
                        assert(Seq::new((15 - len) as nat, |i: int| ' ') =~= spaces(
                            (15 - len) as nat,
                        ));
                        assert(Seq::new((room - clen) as nat, |i: int| ' ') =~= spaces(
                            (room - clen) as nat,
                        ));
                        assert(out@ =~= pad_end(label@, 15) + pad_start(content@, room as nat));
                    }
                    out
                }
            },
            ConfigLine::Separator => {
                let mut out = String::new();
                push_repeated(&mut out, '-', width as usize);
                assert(out@ =~= dashes(width as nat));
                out
            },
            ConfigLine::Empty => {
                let mut out = String::new();
                push_repeated(&mut out, ' ', width as usize);
                assert(out@ =~= spaces(width as nat));
                out
            },
        }
    }
}

/// The configuration panel: the controller's settings and this client's,
/// each a list of labelled values.
#[derive(Debug, Clone)]
pub struct ConfigPage {
    pub clash: Vec<(String, String)>,
    pub mihomoctl: Vec<(String, String)>,
}

/// The rows that open a section: a blank row, the title and a rule.
pub open spec fn head_texts(title: Seq<char>, width: u16) -> Seq<Seq<char>> {
    seq![spaces(width as nat), title, dashes(width as nat)]
}

/// The value rows of a section.
pub open spec fn item_texts(items: Seq<(String, String)>, width: u16) -> Seq<Seq<char>> {
    items.map_values(|it: (String, String)| item_text(it.0@, it.1@, width))
}

/// Every row of the panel at `width` characters.
pub open spec fn page_texts(clash: Seq<(String, String)>, own: Seq<(String, String)>, width: u16) -> Seq<
    Seq<char>,
> {
    head_texts("Clash"@, width) + item_texts(clash, width) + head_texts("Mihomoctl"@, width)
        + item_texts(own, width)
}

/// The characters of each string of `v`.
pub open spec fn texts(v: Seq<String>) -> Seq<Seq<char>> {
    v.map_values(|s: String| s@)
}

/// Whether every value row of `items` can be laid out at `width`.
pub open spec fn items_fit(items: Seq<(String, String)>, width: u16) -> bool {
    forall|i: int|
        0 <= i < items.len() ==> (#[trigger] items[i]).0@ == "Server"@ || width >= LABEL_WIDTH
}

/// Whether every label of `items` is short enough to be measured.
pub open spec fn labels_measurable(items: Seq<(String, String)>) -> bool {
    forall|i: int| 0 <= i < items.len() ==> (#[trigger] items[i]).0@.len() + 2 <= usize::MAX
}

/// The width of the text inside a panel `area_width` columns wide.
pub fn panel_width(area_width: u16) -> (r: u16)
    ensures
        r == (if area_width >= 14 { area_width - 4 } else { 10 }),
{
    let inner = area_width.saturating_sub(4);
    if inner > 10 {
        inner
    } else {
        10
    }
}

impl ConfigPage {
    pub fn new(clash: Vec<(String, String)>, mihomoctl: Vec<(String, String)>) -> (r: ConfigPage)
        ensures
            r.clash@ == clash@,
            r.mihomoctl@ == mihomoctl@,
    {
        ConfigPage { clash, mihomoctl }
    }

    /// Appends the head rows of a section titled `title`.
    fn push_head(out: &mut Vec<String>, title: &str, width: u16)
        ensures
            texts(final(out)@) == texts(old(out)@) + head_texts(title@, width),
    {
        let ghost start = texts(old(out)@);
        let head = ConfigLine::title(title);
        let mut i: usize = 0;
        while i < head.len()
            invariant
                i <= head@.len(),
                is_head(head@, title@),
                texts(out@) == start + head_texts(title@, width).take(i as int),
            decreases head@.len() - i,
        {
            let text = head[i].text(width);
            let ghost before = texts(out@);
            out.push(text);
            proof {
                assert(texts(out@) =~= before.push(text@));
                assert(head_texts(title@, width).take(i + 1) =~= head_texts(title@, width).take(
                    i as int,
                ).push(head_texts(title@, width)[i as int]));
            }
            i = i + 1;
        }
        assert(head_texts(title@, width).take(3) =~= head_texts(title@, width));
    }

    /// Appends the value rows of `items`.
    fn push_items(out: &mut Vec<String>, items: &Vec<(String, String)>, width: u16)
        requires
            items_fit(items@, width),
            labels_measurable(items@),
        ensures
            texts(final(out)@) == texts(old(out)@) + item_texts(items@, width),
    {
        let ghost start = texts(old(out)@);
        let mut i: usize = 0;
        while i < items.len()
            invariant
                i <= items@.len(),
                items_fit(items@, width),
                labels_measurable(items@),
                texts(out@) == start + item_texts(items@.take(i as int), width),
            decreases items@.len() - i,
        {
            let line = ConfigLine::Item { label: items[i].0.clone(), content: items[i].1.clone() };
            assert(items_fit(items@, width) ==> (items@[i as int].0@ == "Server"@ || width >= LABEL_WIDTH));
            assert(labels_measurable(items@) ==> items@[i as int].0@.len() + 2 <= usize::MAX);
            let text = line.text(width);
            let ghost before = texts(out@);
            assert(text@ == item_text(items@[i as int].0@, items@[i as int].1@, width));
            out.push(text);
            proof {
                assert(texts(out@) =~= before.push(text@));
                assert(items@.take(i + 1) =~= items@.take(i as int).push(items@[i as int]));
                assert(item_texts(items@.take(i + 1), width) =~= item_texts(items@.take(i as int), width).push(
                    item_text(items@[i as int].0@, items@[i as int].1@, width),
                ));
                assert(texts(out@) =~= start + item_texts(items@.take(i + 1), width));
            }
            i = i + 1;
        }
        proof {
            assert(items@.take(items@.len() as int) =~= items@);
        }
    }

    /// The rows of the panel at `width` characters: the controller's section,
    /// then this client's.
    pub fn lines(&self, width: u16) -> (r: Vec<String>)
        requires
            items_fit(self.clash@, width),
            items_fit(self.mihomoctl@, width),
            labels_measurable(self.clash@),
            labels_measurable(self.mihomoctl@),
        ensures
            texts(r@) == page_texts(self.clash@, self.mihomoctl@, width),
    {
        let mut out: Vec<String> = Vec::new();
        assert(texts(out@) =~= Seq::<Seq<char>>::empty());
        ConfigPage::push_head(&mut out, "Clash", width);
        ConfigPage::push_items(&mut out, &self.clash, width);
        ConfigPage::push_head(&mut out, "Mihomoctl", width);
        ConfigPage::push_items(&mut out, &self.mihomoctl, width);
        assert(texts(out@) =~= page_texts(self.clash@, self.mihomoctl@, width));
        out
    }
}


/// `s` cut into pieces of `size` characters; the last one may be shorter.
pub open spec fn pieces(s: Seq<char>, size: nat) -> Seq<Seq<char>>
    decreases s.len(),
{
    if size == 0 || s.len() <= size {
        seq![s]
    } else {
        seq![s.take(size as int)] + pieces(s.skip(size as int), size)
    }
}

/// The pieces one after the other.
pub open spec fn flatten(p: Seq<Seq<char>>) -> Seq<char>
    decreases p.len(),
{
    if p.len() == 0 {
        Seq::empty()
    } else {
        p[0] + flatten(p.drop_first())
    }
}

/// The pieces joined by `sep`.
pub open spec fn joined(p: Seq<Seq<char>>, sep: Seq<char>) -> Seq<char>
    decreases p.len(),
{
    if p.len() == 0 {
        Seq::empty()
    } else if p.len() == 1 {
        p[0]
    } else {
        p[0] + sep + joined(p.drop_first(), sep)
    }
}

/// Wrapping loses no character: the wrapped value is its pieces joined by
/// the line break and indentation, the pieces put together give the value
/// back, and every piece but the last fills a line.
pub proof fn wrapping_keeps_every_character(s: Seq<char>, size: nat, sep: Seq<char>)
    requires
        size > 0,
    ensures
        chunks_joined(s, size, sep) == joined(pieces(s, size), sep),
        flatten(pieces(s, size)) == s,
        forall|i: int| 0 <= i < pieces(s, size).len() ==> #[trigger] pieces(s, size)[i].len() <= size,
        forall|i: int| 0 <= i < pieces(s, size).len() - 1 ==> #[trigger] pieces(s, size)[i].len() == size,
    decreases s.len(),
{
    if s.len() <= size {
        assert(flatten(seq![s].drop_first()) == Seq::<char>::empty());
        assert(flatten(seq![s]) =~= s);
    } else {
        let rest = s.skip(size as int);
        wrapping_keeps_every_character(rest, size, sep);
        let p = pieces(s, size);
        let q = pieces(rest, size);
        assert(p =~= seq![s.take(size as int)] + q);
        assert(p.drop_first() =~= q);
        assert(p[0] == s.take(size as int));
        assert(q.len() >= 1);
        assert(flatten(p) == s.take(size as int) + flatten(q));
        assert(s.take(size as int) + rest =~= s);
        assert forall|i: int| 0 <= i < p.len() implies #[trigger] p[i].len() <= size by {
            if i > 0 {
                assert(p[i] == q[i - 1]);
            }
        }
        assert forall|i: int| 0 <= i < p.len() - 1 implies #[trigger] p[i].len() == size by {
            if i > 0 {
                assert(p[i] == q[i - 1]);
            }
        }
    }
}

} // verus!
