//! IP addresses and networks as rules write them: dotted IPv4 addresses,
//! IPv6 addresses in their colon forms, and `address/prefix` networks, with
//! the test whether an address lies in a network.

use vstd::prelude::*;
use vstd::arithmetic::power2::{lemma2_to64, lemma_pow2_unfold, pow2};
use crate::text::{chars_of, parse_u64, split_chars, split_on, string_of_chars, trim, trim_spec, unsigned_text_value};

verus! {

/// A decimal digit.
pub open spec fn is_dec(c: char) -> bool {
    '0' <= c && c <= '9'
}

/// A hexadecimal digit, in either case.
pub open spec fn is_hex(c: char) -> bool {
    is_dec(c) || ('a' <= c && c <= 'f') || ('A' <= c && c <= 'F')
}

/// The value of a hexadecimal digit.
pub open spec fn hex_digit(c: char) -> int {
    if is_dec(c) {
        c as int - '0' as int
    } else if 'a' <= c && c <= 'f' {
        c as int - 'a' as int + 10
    } else {
        c as int - 'A' as int + 10
    }
}

/// The value of digits in base `base`.
pub open spec fn digits_value(p: Seq<char>, base: int) -> int
    decreases p.len(),
{
    if p.len() == 0 {
        0
    } else {
        digits_value(p.drop_last(), base) * base + hex_digit(p.last())
    }
}

/// An octet of a dotted address: one to three decimal digits, no leading
/// zero but in `0` itself, at most 255.
pub open spec fn octet_of(p: Seq<char>) -> Option<int> {
    if 1 <= p.len() <= 3 && (forall|k: int| 0 <= k < p.len() ==> is_dec(#[trigger] p[k])) && !(p.len()
        > 1 && p[0] == '0') && digits_value(p, 10) <= 255 {
        Some(digits_value(p, 10))
    } else {
        None
    }
}

/// A group of an IPv6 address: one to four hexadecimal digits.
pub open spec fn group_of(p: Seq<char>) -> Option<int> {
    if 1 <= p.len() <= 4 && (forall|k: int| 0 <= k < p.len() ==> is_hex(#[trigger] p[k])) {
        Some(digits_value(p, 16))
    } else {
        None
    }
}

/// The octets of a dotted IPv4 address: four octets between dots.
pub open spec fn ipv4_octets(s: Seq<char>) -> Option<Seq<int>> {
    let p = split_on(s, '.');
    if p.len() == 4 && octet_of(p[0]) is Some && octet_of(p[1]) is Some && octet_of(p[2]) is Some
        && octet_of(p[3]) is Some {
        Some(seq![octet_of(p[0])->0, octet_of(p[1])->0, octet_of(p[2])->0, octet_of(p[3])->0])
    } else {
        None
    }
}

/// The groups the pieces stand for, each one group.
pub open spec fn hex_groups(pieces: Seq<Seq<char>>) -> Option<Seq<int>>
    decreases pieces.len(),
{
    if pieces.len() == 0 {
        Some(Seq::empty())
    } else {
        match (hex_groups(pieces.drop_last()), group_of(pieces.last())) {
            (Some(g), Some(x)) => Some(g.push(x)),
            _ => None,
        }
    }
}

/// The groups the pieces stand for, where the last piece may be a dotted
/// IPv4 address that stands for two groups.
pub open spec fn tail_groups(pieces: Seq<Seq<char>>) -> Option<Seq<int>> {
    if pieces.len() > 0 && ipv4_octets(pieces.last()) is Some {
        let o = ipv4_octets(pieces.last())->0;
        match hex_groups(pieces.drop_last()) {
            Some(g) => Some(g + seq![o[0] * 256 + o[1], o[2] * 256 + o[3]]),
            None => None,
        }
    } else {
        hex_groups(pieces)
    }
}

/// The first position of `::` in `s`, from `from` on.
pub open spec fn double_colon_from(s: Seq<char>, from: int) -> Option<int>
    decreases s.len() - from,
{
    if from < 0 || from + 1 >= s.len() {
        None
    } else if s[from] == ':' && s[from + 1] == ':' {
        Some(from)
    } else {
        double_colon_from(s, from + 1)
    }
}

/// The pieces of a part of an address around `::`: none when it is empty.
pub open spec fn side_pieces(s: Seq<char>) -> Seq<Seq<char>> {
    if s.len() == 0 {
        Seq::empty()
    } else {
        split_on(s, ':')
    }
}

/// The eight groups of an IPv6 address: eight groups between colons, or
/// the groups before and after one `::` with zero groups for the rest (at
/// least one); only the last piece may be a dotted IPv4 address, and not
/// before `::`.
pub open spec fn ipv6_groups(s: Seq<char>) -> Option<Seq<int>> {
    match double_colon_from(s, 0) {
        None => match tail_groups(split_on(s, ':')) {
            Some(g) => if g.len() == 8 {
                Some(g)
            } else {
                None
            },
            None => None,
        },
        Some(i) => match (hex_groups(side_pieces(s.take(i))), tail_groups(side_pieces(s.skip(i + 2)))) {
            (Some(h), Some(t)) => if h.len() + t.len() <= 7 {
                Some(h + Seq::new((8 - h.len() - t.len()) as nat, |k: int| 0int) + t)
            } else {
                None
            },
            _ => None,
        },
    }
}

/// An address: IPv6 or not, and its octets (IPv4) or groups (IPv6).
pub open spec fn ip_parts(s: Seq<char>) -> Option<(bool, Seq<int>)> {
    match ipv4_octets(s) {
        Some(o) => Some((false, o)),
        None => match ipv6_groups(s) {
            Some(g) => Some((true, g)),
            None => None,
        },
    }
}


/// The numbers of a sequence of `u32`, as integers.
pub open spec fn ints(v: Seq<u32>) -> Seq<int> {
    v.map_values(|x: u32| x as int)
}

/// `16` to the power `i`, for `i` up to four.
pub open spec fn pow16(i: int) -> int {
    if i <= 0 {
        1
    } else if i == 1 {
        16
    } else if i == 2 {
        256
    } else if i == 3 {
        4096
    } else {
        65536
    }
}

fn digit_value(c: char) -> (r: u32)
    requires
        is_hex(c),
    ensures
        r == hex_digit(c),
        r < 16,
{
    if '0' <= c && c <= '9' {
        (c as u32) - 48
    } else if 'a' <= c && c <= 'f' {
        (c as u32) - 87
    } else {
        (c as u32) - 55
    }
}

/// The value of one to four digits in base `base` (ten or sixteen), when
/// they are all digits of that base.
fn small_number(p: &Vec<char>, base: u32) -> (r: Option<u32>)
    requires
        base == 10 || base == 16,
        1 <= p@.len() <= 4,
    ensures
        match r {
            Some(v) => (forall|k: int| 0 <= k < p@.len() ==> if base == 10 { is_dec(#[trigger] p@[k]) } else { is_hex(p@[k]) })
                && v == digits_value(p@, base as int),
            None => exists|k: int| 0 <= k < p@.len() && !(if base == 10 { is_dec(#[trigger] p@[k]) } else { is_hex(p@[k]) }),
        },
{
    let mut acc: u32 = 0;
    let mut i: usize = 0;
    while i < p.len()
        invariant
            base == 10 || base == 16,
            i <= p@.len() <= 4,
            acc == digits_value(p@.take(i as int), base as int),
            acc < pow16(i as int),
            forall|k: int| 0 <= k < i ==> if base == 10 { is_dec(#[trigger] p@[k]) } else { is_hex(p@[k]) },
        decreases p@.len() - i,
    {
        let c = p[i];
        let ok = if base == 10 {
            '0' <= c && c <= '9'
        } else {
            ('0' <= c && c <= '9') || ('a' <= c && c <= 'f') || ('A' <= c && c <= 'F')
        };
        if !ok {
            return None;
        }
        let d = digit_value(c);
        proof {
            assert(p@.take(i + 1).drop_last() =~= p@.take(i as int));
            assert(p@.take(i + 1).last() == c);
            assert(d < base);
            assert(acc * base + d < pow16(i + 1)) by (nonlinear_arith)
                requires
                    acc < pow16(i as int),
                    d < base,
                    base <= 16,
                    pow16(i + 1) == pow16(i as int) * 16,
            ;
        }
        acc = acc * base + d;
        i = i + 1;
    }
    proof {
        assert(p@.take(p@.len() as int) =~= p@);
    }
    Some(acc)
}

/// The octet a piece of a dotted address stands for; see [`octet_of`].
fn octet(p: &Vec<char>) -> (r: Option<u32>)
    ensures
        match r {
            Some(v) => octet_of(p@) == Some(v as int),
            None => octet_of(p@) is None,
        },
{
    if p.len() < 1 || p.len() > 3 {
        return None;
    }
    if p.len() > 1 && p[0] == '0' {
        return None;
    }
    match small_number(p, 10) {
        Some(v) => if v <= 255 {
            Some(v)
        } else {
            None
        },
        None => None,
    }
}

/// The group a piece of an IPv6 address stands for; see [`group_of`].
fn group(p: &Vec<char>) -> (r: Option<u32>)
    ensures
        match r {
            Some(v) => group_of(p@) == Some(v as int),
            None => group_of(p@) is None,
        },
{
    if p.len() < 1 || p.len() > 4 {
        return None;
    }
    small_number(p, 16)
}


/// The characters of each piece.
pub open spec fn piece_views(v: Seq<Vec<char>>) -> Seq<Seq<char>> {
    v.map_values(|p: Vec<char>| p@)
}

/// The octets of a dotted IPv4 address; see [`ipv4_octets`].
pub fn ipv4(s: &Vec<char>) -> (r: Option<Vec<u32>>)
    ensures
        match r {
            Some(v) => ipv4_octets(s@) == Some(ints(v@)),
            None => ipv4_octets(s@) is None,
        },
{
    let pieces = split_chars(s, '.');
    if pieces.len() != 4 {
        return None;
    }
    let ghost pv = piece_views(pieces@);
    assert(pv[0] == pieces@[0]@ && pv[1] == pieces@[1]@ && pv[2] == pieces@[2]@ && pv[3] == pieces@[3]@);
    let a = match octet(&pieces[0]) {
        Some(x) => x,
        None => return None,
    };
    let b = match octet(&pieces[1]) {
        Some(x) => x,
        None => return None,
    };
    let c = match octet(&pieces[2]) {
        Some(x) => x,
        None => return None,
    };
    let d = match octet(&pieces[3]) {
        Some(x) => x,
        None => return None,
    };
    let v = vec![a, b, c, d];
    assert(ints(v@) =~= seq![a as int, b as int, c as int, d as int]);
    Some(v)
}

/// The groups of pieces that each stand for one group; see [`hex_groups`].
fn groups_of_pieces(pieces: &Vec<Vec<char>>, n: usize) -> (r: Option<Vec<u32>>)
    requires
        n <= pieces@.len(),
    ensures
        match r {
            Some(v) => hex_groups(piece_views(pieces@).take(n as int)) == Some(ints(v@)),
            None => hex_groups(piece_views(pieces@).take(n as int)) is None,
        },
{
    let mut out: Vec<u32> = Vec::new();
    let mut i: usize = 0;
    let ghost pv = piece_views(pieces@);
    assert(pv.take(0) =~= Seq::<Seq<char>>::empty());
    assert(ints(out@) =~= Seq::<int>::empty());
    while i < n
        invariant
            n <= pieces@.len(),
            i <= n,
            pv == piece_views(pieces@),
            hex_groups(pv.take(i as int)) == Some(ints(out@)),
        decreases n - i,
    {
        proof {
            assert(pv.take(i + 1).drop_last() =~= pv.take(i as int));
            assert(pv.take(i + 1).last() == pieces@[i as int]@);
        }
        match group(&pieces[i]) {
            Some(g) => {
                out.push(g);
                assert(ints(out@) =~= ints(out@.drop_last()).push(g as int));
            },
            None => {
                proof {
                    lemma_hex_groups_none_extends(pv, i as int + 1, n as int);
                }
                return None;
            },
        }
        i = i + 1;
    }
    Some(out)
}

/// Once the groups of a prefix of the pieces fail, those of any longer
/// prefix fail too.
proof fn lemma_hex_groups_none_extends(pv: Seq<Seq<char>>, i: int, n: int)
    requires
        0 <= i <= n <= pv.len(),
        hex_groups(pv.take(i)) is None,
    ensures
        hex_groups(pv.take(n)) is None,
    decreases n - i,
{
    if i < n {
        assert(pv.take(i + 1).drop_last() =~= pv.take(i));
        lemma_hex_groups_none_extends(pv, i + 1, n);
    }
}

/// The groups of the pieces, the last of which may be a dotted IPv4
/// address; see [`tail_groups`].
fn last_groups(pieces: &Vec<Vec<char>>) -> (r: Option<Vec<u32>>)
    ensures
        match r {
            Some(v) => tail_groups(piece_views(pieces@)) == Some(ints(v@)),
            None => tail_groups(piece_views(pieces@)) is None,
        },
{
    let n = pieces.len();
    let ghost pv = piece_views(pieces@);
    proof {
        assert(pv.take(n as int) =~= pv);
        if n > 0 {
            assert(pv.take(n - 1) =~= pv.drop_last());
            assert(pv.last() == pieces@[n - 1]@);
        }
    }
    if n > 0 {
        if let Some(o) = ipv4(&pieces[n - 1]) {
            match groups_of_pieces(pieces, n - 1) {
                Some(mut g) => {
                    let ghost before = g@;
                    proof {
                        let q = pieces@[n - 1]@;
                        let sp = split_on(q, '.');
                        assert(ints(o@).len() == 4);
                        assert(o@.len() == 4);
                        assert(ints(o@)[0] == o@[0] as int);
                        assert(ints(o@)[1] == o@[1] as int);
                        assert(ints(o@)[2] == o@[2] as int);
                        assert(ints(o@)[3] == o@[3] as int);
                        assert(octet_of(sp[0])->0 <= 255);
                        assert(octet_of(sp[1])->0 <= 255);
                        assert(octet_of(sp[2])->0 <= 255);
                        assert(octet_of(sp[3])->0 <= 255);
                    }
                    let hi = o[0] * 256 + o[1];
                    let lo = o[2] * 256 + o[3];
                    g.push(hi);
                    g.push(lo);
                    assert(ints(g@) =~= ints(before) + seq![ints(o@)[0] * 256 + ints(o@)[1], ints(o@)[2] * 256 + ints(o@)[3]]);
                    return Some(g);
                },
                None => return None,
            }
        }
    }
    groups_of_pieces(pieces, n)
}


proof fn lemma_double_colon(s: Seq<char>, from: int, i: int)
    requires
        0 <= from <= i,
        i + 1 <= s.len() || i == s.len(),
        forall|k: int| from <= k < i && k + 1 < s.len() ==> !(#[trigger] s[k] == ':' && s[k + 1] == ':'),
    ensures
        i + 1 < s.len() && s[i] == ':' && s[i + 1] == ':' ==> double_colon_from(s, from) == Some(i),
        i + 1 >= s.len() ==> double_colon_from(s, from) is None,
    decreases i - from,
{
    if from < i {
        lemma_double_colon(s, from + 1, i);
    }
}

/// The first position of `::`; see [`double_colon_from`].
fn find_double_colon(s: &Vec<char>) -> (r: Option<usize>)
    ensures
        match r {
            Some(i) => double_colon_from(s@, 0) == Some(i as int) && i + 1 < s@.len(),
            None => double_colon_from(s@, 0) is None,
        },
{
    let n = s.len();
    if n < 2 {
        proof {
            lemma_double_colon(s@, 0, 0);
        }
        return None;
    }
    let mut i: usize = 0;
    while i + 1 < n
        invariant
            n == s@.len(),
            n >= 2,
            i + 1 <= n,
            forall|k: int| 0 <= k < i && k + 1 < s@.len() ==> !(#[trigger] s@[k] == ':' && s@[k + 1] == ':'),
        decreases n - i,
    {
        if s[i] == ':' && s[i + 1] == ':' {
            proof {
                lemma_double_colon(s@, 0, i as int);
            }
            return Some(i);
        }
        i = i + 1;
    }
    proof {
        lemma_double_colon(s@, 0, i as int);
    }
    None
}

/// The characters `s[from..to]`.
fn sub_chars(s: &Vec<char>, from: usize, to: usize) -> (r: Vec<char>)
    requires
        from <= to <= s@.len(),
    ensures
        r@ == s@.subrange(from as int, to as int),
{
    let mut r: Vec<char> = Vec::new();
    let mut i = from;
    while i < to
        invariant
            from <= i <= to <= s@.len(),
            r@ == s@.subrange(from as int, i as int),
        decreases to - i,
    {
        r.push(s[i]);
        assert(s@.subrange(from as int, i + 1) =~= s@.subrange(from as int, i as int).push(s@[i as int]));
        i = i + 1;
    }
    r
}

/// The pieces of one side of `::`; see [`side_pieces`].
fn side_chars(s: &Vec<char>) -> (r: Vec<Vec<char>>)
    ensures
        piece_views(r@) == side_pieces(s@),
{
    if s.len() == 0 {
        let r: Vec<Vec<char>> = Vec::new();
        assert(piece_views(r@) =~= Seq::<Seq<char>>::empty());
        r
    } else {
        split_chars(s, ':')
    }
}

/// The eight groups of an IPv6 address; see [`ipv6_groups`].
pub fn ipv6(s: &Vec<char>) -> (r: Option<Vec<u32>>)
    ensures
        match r {
            Some(v) => ipv6_groups(s@) == Some(ints(v@)),
            None => ipv6_groups(s@) is None,
        },
{
    match find_double_colon(s) {
        None => {
            let pieces = split_chars(s, ':');
            match last_groups(&pieces) {
                Some(g) => if g.len() == 8 {
                    Some(g)
                } else {
                    None
                },
                None => None,
            }
        },
        Some(i) => {
            let head = sub_chars(s, 0, i);
            let n = s.len();
            assert(i + 2 <= n);
            let tail = sub_chars(s, i + 2, n);
            proof {
                assert(head@ =~= s@.take(i as int));
                assert(tail@ =~= s@.skip(i + 2));
            }
            let hp = side_chars(&head);
            let tp = side_chars(&tail);
            let h = groups_of_pieces(&hp, hp.len());
            proof {
                assert(piece_views(hp@).take(hp@.len() as int) =~= piece_views(hp@));
            }
            let t = last_groups(&tp);
            match (h, t) {
                (Some(h), Some(t)) => {
                    if h.len() <= 7 && t.len() <= 7 - h.len() {
                        let zeros = 8 - h.len() - t.len();
                        let mut out = h;
                        let ghost hv = ints(out@);
                        let mut k: usize = 0;
                        while k < zeros
                            invariant
                                k <= zeros,
                                ints(out@) == hv + Seq::new(k as nat, |j: int| 0int),
                            decreases zeros - k,
                        {
                            let ghost prev = out@;
                            out.push(0);
                            assert(ints(out@) =~= ints(prev).push(0));
                            assert(ints(out@) =~= hv + Seq::new((k + 1) as nat, |j: int| 0int));
                            k = k + 1;
                        }
                        let ghost mid = ints(out@);
                        let mut j: usize = 0;
                        while j < t.len()
                            invariant
                                j <= t@.len(),
                                ints(out@) == mid + ints(t@).take(j as int),
                            decreases t@.len() - j,
                        {
                            let ghost prev = out@;
                            out.push(t[j]);
                            assert(ints(out@) =~= ints(prev).push(t@[j as int] as int));
                            assert(ints(t@).take(j + 1) =~= ints(t@).take(j as int).push(t@[j as int] as int));
                            assert(ints(out@) =~= mid + ints(t@).take(j + 1));
                            j = j + 1;
                        }
                        assert(ints(t@).take(t@.len() as int) =~= ints(t@));
                        Some(out)
                    } else {
                        None
                    }
                },
                _ => None,
            }
        },
    }
}

/// Which family an address is of, and its octets or groups; see
/// [`ip_parts`].
pub fn ip_address(s: &Vec<char>) -> (r: Option<(bool, Vec<u32>)>)
    ensures
        match r {
            Some((v6, parts)) => ip_parts(s@) == Some((v6, ints(parts@))) && parts@.len() == part_count(v6),
            None => ip_parts(s@) is None,
        },
{
    proof {
        lemma_ip_parts_len(s@);
    }
    match ipv4(s) {
        Some(o) => Some((false, o)),
        None => match ipv6(s) {
            Some(g) => Some((true, g)),
            None => None,
        },
    }
}

/// The first position of `c` in `s`, from `from` on.
pub open spec fn first_from(s: Seq<char>, c: char, from: int) -> Option<int>
    decreases s.len() - from,
{
    if from < 0 || from >= s.len() {
        None
    } else if s[from] == c {
        Some(from)
    } else {
        first_from(s, c, from + 1)
    }
}

/// The prefix length written after the slash of a network, as `u8` reads
/// it from the trimmed text; `None` when it does not read.
pub open spec fn prefix_value(s: Seq<char>) -> Option<int> {
    match unsigned_text_value(trim_spec(s)) {
        Some(v) => if v <= 255 {
            Some(v as int)
        } else {
            None
        },
        None => None,
    }
}

/// The trimmed address of a network and its prefix length: the text before
/// the first slash and the length after it, or the whole text and no length.
pub open spec fn network_and_prefix(cidr: Seq<char>) -> (Seq<char>, Option<int>) {
    match first_from(cidr, '/', 0) {
        Some(i) => (trim_spec(cidr.take(i)), prefix_value(cidr.skip(i + 1))),
        None => (trim_spec(cidr), None),
    }
}

/// Bit `j` of `x`, counted from the least significant bit, which is bit 0.
pub open spec fn bit(x: int, j: int) -> int
    decreases j,
{
    if j <= 0 {
        x % 2
    } else {
        bit(x / 2, j - 1)
    }
}

/// The first `p` bits of two addresses agree, where each address is a
/// sequence of parts `width` bits wide, the most significant part first.
pub open spec fn same_prefix(a: Seq<int>, b: Seq<int>, width: int, p: int) -> bool {
    forall|q: int, j: int|
        #![trigger bit(a[q], j)]
        0 <= q < a.len() && 0 <= j < width && q * width + (width - 1 - j) < p ==> bit(a[q], j) == bit(
            b[q],
            j,
        )
}

/// The width in bits of the parts of an address of a family.
pub open spec fn part_width(v6: bool) -> int {
    if v6 {
        16
    } else {
        8
    }
}

/// The number of parts of an address of a family.
pub open spec fn part_count(v6: bool) -> int {
    if v6 {
        8
    } else {
        4
    }
}

/// Whether the address with parts `addr` of the family `v6` lies in the
/// network `cidr`: the network reads as an address of the same family,
/// its prefix length (the full address length when none reads) is at
/// most that length, and the address agrees with it on that many leading
/// bits.
pub open spec fn in_network(v6: bool, addr: Seq<int>, cidr: Seq<char>) -> bool {
    let (net_text, prefix) = network_and_prefix(cidr);
    let total = part_count(v6) * part_width(v6);
    match ip_parts(net_text) {
        Some((net_v6, net)) => {
            let p = match prefix {
                Some(p) => p,
                None => total,
            };
            net_v6 == v6 && p <= total && same_prefix(addr, net, part_width(v6), p)
        },
        None => false,
    }
}

/// An address has four octets or eight groups.
proof fn lemma_ip_parts_len(s: Seq<char>)
    ensures
        ip_parts(s) matches Some((v6, parts)) ==> parts.len() == part_count(v6),
{
    match double_colon_from(s, 0) {
        Some(i) => {
            match (hex_groups(side_pieces(s.take(i))), tail_groups(side_pieces(s.skip(i + 2)))) {
                (Some(h), Some(t)) => {
                    if h.len() + t.len() <= 7 {
                        assert((h + Seq::new((8 - h.len() - t.len()) as nat, |k: int| 0int) + t).len() == 8);
                    }
                },
                _ => {},
            }
        },
        None => {},
    }
}

/// Bit `j` of `x`; see [`bit`].
fn bit_of(x: u32, j: u32) -> (r: u32)
    ensures
        r == bit(x as int, j as int),
{
    let mut y = x;
    let mut k: u32 = 0;
    while k < j
        invariant
            k <= j,
            bit(x as int, j as int) == bit(y as int, j - k),
        decreases j - k,
    {
        y = y / 2;
        k = k + 1;
    }
    y % 2
}

/// A position in an address is written one way as a part and a bit in it.
proof fn lemma_position_unique(q1: int, r1: int, q2: int, r2: int, w: int)
    requires
        w > 0,
        0 <= r1 < w,
        0 <= r2 < w,
        q1 * w + r1 == q2 * w + r2,
    ensures
        q1 == q2,
        r1 == r2,
{
    if q1 < q2 {
        assert(q1 * w + w <= q2 * w) by (nonlinear_arith)
            requires
                q1 < q2,
                w > 0,
        ;
    } else if q2 < q1 {
        assert(q2 * w + w <= q1 * w) by (nonlinear_arith)
            requires
                q2 < q1,
                w > 0,
        ;
    }
}

/// Whether the first `p` bits of two addresses agree; see [`same_prefix`].
fn same_prefix_bits(a: &Vec<u32>, b: &Vec<u32>, width: u32, p: u32) -> (r: bool)
    requires
        a@.len() == b@.len(),
        width == 8 || width == 16,
        p <= a@.len() * width,
    ensures
        r == same_prefix(ints(a@), ints(b@), width as int, p as int),
{
    let ghost w = width as int;
    let mut q: usize = 0;
    let mut r: u32 = 0;
    let mut i: u32 = 0;
    while i < p
        invariant
            a@.len() == b@.len(),
            width == 8 || width == 16,
            w == width as int,
            p <= a@.len() * w,
            i <= p,
            r < width,
            i == q * w + r,
            forall|q2: int, j: int|
                #![trigger bit(ints(a@)[q2], j)]
                0 <= q2 < a@.len() && 0 <= j < w && q2 * w + (w - 1 - j) < i ==> bit(ints(a@)[q2], j)
                    == bit(ints(b@)[q2], j),
        decreases p - i,
    {
        proof {
            if q >= a@.len() {
                assert(a@.len() * w <= q * w) by (nonlinear_arith)
                    requires
                        q >= a@.len(),
                        w > 0,
                ;
            }
        }
        let j = width - 1 - r;
        let x = a[q];
        let y = b[q];
        if bit_of(x, j) != bit_of(y, j) {
            proof {
                assert(bit(ints(a@)[q as int], j as int) != bit(ints(b@)[q as int], j as int));
            }
            return false;
        }
        proof {
            assert forall|q2: int, j2: int|
                #![trigger bit(ints(a@)[q2], j2)]
                0 <= q2 < a@.len() && 0 <= j2 < w && q2 * w + (w - 1 - j2) < i + 1 implies bit(
                    ints(a@)[q2],
                    j2,
                ) == bit(ints(b@)[q2], j2) by {
                if q2 * w + (w - 1 - j2) == i {
                    lemma_position_unique(q2, w - 1 - j2, q as int, r as int, w);
                }
            }
        }
        i = i + 1;
        if r + 1 == width {
            let ghost qi = q as int;
            assert((qi + 1) * w == qi * w + w) by (nonlinear_arith);
            r = 0;
            q = q + 1;
        } else {
            r = r + 1;
        }
    }
    true
}

/// The first position of `c` in `s`; see [`first_from`].
fn find_char(s: &Vec<char>, c: char) -> (r: Option<usize>)
    ensures
        match r {
            Some(i) => first_from(s@, c, 0) == Some(i as int) && i < s@.len(),
            None => first_from(s@, c, 0) is None,
        },
{
    let mut i: usize = 0;
    while i < s.len()
        invariant
            i <= s@.len(),
            first_from(s@, c, 0) == first_from(s@, c, i as int),
        decreases s@.len() - i,
    {
        if s[i] == c {
            return Some(i);
        }
        i = i + 1;
    }
    None
}

/// The characters of `s` without leading and trailing white space.
fn trimmed_chars(s: &Vec<char>) -> (r: Vec<char>)
    ensures
        r@ == trim_spec(s@),
{
    let text = string_of_chars(s);
    let t = trim(text.as_str());
    chars_of(t.as_str())
}

/// The prefix length written after a slash; see [`prefix_value`].
fn read_prefix(s: &Vec<char>) -> (r: Option<u32>)
    ensures
        match r {
            Some(v) => prefix_value(s@) == Some(v as int),
            None => prefix_value(s@) is None,
        },
{
    let text = string_of_chars(s);
    let t = trim(text.as_str());
    match parse_u64(t.as_str()) {
        Ok(v) => if v <= 255 {
            Some(v as u32)
        } else {
            None
        },
        Err(_) => None,
    }
}

/// Whether the address with parts `addr` of the family `v6` (IPv6 when
/// true) lies in the network `cidr`, written `address/prefix`; see
/// [`in_network`].
pub fn ip_in_cidr(v6: bool, addr: &Vec<u32>, cidr: &str) -> (r: bool)
    requires
        addr@.len() == part_count(v6),
    ensures
        r == in_network(v6, ints(addr@), cidr@),
{
    let chars = chars_of(cidr);
    let (net_chars, prefix) = match find_char(&chars, '/') {
        Some(i) => {
            let before = sub_chars(&chars, 0, i);
            let n = chars.len();
            let after = sub_chars(&chars, i + 1, n);
            proof {
                assert(before@ =~= chars@.take(i as int));
                assert(after@ =~= chars@.skip(i + 1));
            }
            (trimmed_chars(&before), read_prefix(&after))
        },
        None => (trimmed_chars(&chars), None),
    };
    let ghost np = network_and_prefix(cidr@);
    assert(net_chars@ == np.0);
    assert(match prefix {
        Some(v) => np.1 == Some(v as int),
        None => np.1 is None,
    });
    proof {
        lemma_ip_parts_len(net_chars@);
    }
    match ip_address(&net_chars) {
        Some((net_v6, net)) => {
            if net_v6 != v6 {
                return false;
            }
            let width: u32 = if v6 {
                16
            } else {
                8
            };
            let total: u32 = if v6 {
                128
            } else {
                32
            };
            let p = match prefix {
                Some(p) => p,
                None => total,
            };
            if p > total {
                return false;
            }
            assert(ints(net@).len() == net@.len());
            same_prefix_bits(addr, &net, width, p)
        },
        None => false,
    }
}


/// Digits have a value of at least zero, and one to four hexadecimal digits
/// one below `16` to the power of their count.
proof fn lemma_digits_bound(p: Seq<char>, base: int)
    requires
        base == 10 || base == 16,
        forall|k: int| 0 <= k < p.len() ==> is_hex(#[trigger] p[k]),
    ensures
        0 <= digits_value(p, base),
        base == 16 && p.len() <= 4 ==> digits_value(p, base) < pow16(p.len() as int),
    decreases p.len(),
{
    if p.len() > 0 {
        assert(is_hex(p[p.len() - 1]));
        lemma_digits_bound(p.drop_last(), base);
    }
}

/// The groups of pieces that each stand for one group are below `2^16`.
proof fn lemma_hex_groups_bound(pieces: Seq<Seq<char>>)
    ensures
        hex_groups(pieces) matches Some(g) ==> forall|k: int| 0 <= k < g.len() ==> 0 <= #[trigger] g[k] < 65536,
    decreases pieces.len(),
{
    if pieces.len() > 0 {
        lemma_hex_groups_bound(pieces.drop_last());
        let p = pieces.last();
        if group_of(p) is Some {
            lemma_digits_bound(p, 16);
        }
    }
}

/// The octets of a dotted address are below `2^8`.
proof fn lemma_ipv4_bound(s: Seq<char>)
    ensures
        ipv4_octets(s) matches Some(o) ==> o.len() == 4 && forall|k: int| 0 <= k < 4 ==> 0 <= #[trigger] o[k] < 256,
{
    let p = split_on(s, '.');
    if ipv4_octets(s) is Some {
        assert forall|i: int| 0 <= i < 4 implies 0 <= #[trigger] octet_of(p[i])->0 by {
            assert forall|k: int| 0 <= k < p[i].len() implies is_hex(#[trigger] p[i][k]) by {
                assert(is_dec(p[i][k]));
            }
            lemma_digits_bound(p[i], 10);
        }
    }
}

/// The groups after `::` or of a whole address are below `2^16`.
proof fn lemma_tail_groups_bound(pieces: Seq<Seq<char>>)
    ensures
        tail_groups(pieces) matches Some(g) ==> forall|k: int| 0 <= k < g.len() ==> 0 <= #[trigger] g[k] < 65536,
{
    lemma_hex_groups_bound(pieces);
    if pieces.len() > 0 {
        lemma_hex_groups_bound(pieces.drop_last());
        lemma_ipv4_bound(pieces.last());
    }
}

/// Every part of an address is below `2` to the power of its width.
proof fn lemma_ip_parts_bound(s: Seq<char>)
    ensures
        ip_parts(s) matches Some((v6, parts)) ==> forall|k: int|
            0 <= k < parts.len() ==> 0 <= #[trigger] parts[k] < pow2(part_width(v6) as nat),
{
    lemma2_to64();
    lemma_ipv4_bound(s);
    if ipv4_octets(s) is None {
        match double_colon_from(s, 0) {
            Some(i) => {
                lemma_hex_groups_bound(side_pieces(s.take(i)));
                lemma_tail_groups_bound(side_pieces(s.skip(i + 2)));
            },
            None => {
                lemma_tail_groups_bound(split_on(s, ':'));
            },
        }
    }
}

/// Two numbers below `2^n` whose bits `0` to `n - 1` agree are equal.
proof fn lemma_bits_determine(x: int, y: int, n: nat)
    requires
        0 <= x < pow2(n),
        0 <= y < pow2(n),
        forall|j: int| 0 <= j < n ==> #[trigger] bit(x, j) == bit(y, j),
    ensures
        x == y,
    decreases n,
{
    if n == 0 {
        lemma2_to64();
    } else {
        lemma_pow2_unfold(n);
        assert(bit(x, 0) == bit(y, 0));
        assert forall|j: int| 0 <= j < n - 1 implies #[trigger] bit(x / 2, j) == bit(y / 2, j) by {
            assert(bit(x, j + 1) == bit(y, j + 1));
        }
        lemma_bits_determine(x / 2, y / 2, (n - 1) as nat);
    }
}

/// Addresses of parts below `2^w` agree on all their bits just when they are
/// the same.
proof fn lemma_full_prefix(a: Seq<int>, b: Seq<int>, w: int)
    requires
        a.len() == b.len(),
        w > 0,
        forall|k: int| 0 <= k < a.len() ==> 0 <= #[trigger] a[k] < pow2(w as nat),
        forall|k: int| 0 <= k < b.len() ==> 0 <= #[trigger] b[k] < pow2(w as nat),
    ensures
        same_prefix(a, b, w, a.len() * w) <==> a == b,
{
    if same_prefix(a, b, w, a.len() * w) {
        assert forall|q: int| 0 <= q < a.len() implies a[q] == b[q] by {
            assert forall|j: int| 0 <= j < w implies #[trigger] bit(a[q], j) == bit(b[q], j) by {
                assert(q * w + w <= a.len() * w) by (nonlinear_arith)
                    requires
                        q + 1 <= a.len(),
                        w > 0,
                ;
            }
            lemma_bits_determine(a[q], b[q], w as nat);
        }
        assert(a =~= b);
    }
}

/// A network written without a prefix holds just its own address: an
/// address of the network's family lies in it exactly when the two are the
/// same address.
pub proof fn network_without_prefix_is_its_address(v6: bool, addr: Seq<int>, cidr: Seq<char>)
    requires
        first_from(cidr, '/', 0) is None,
        addr.len() == part_count(v6),
        forall|k: int| 0 <= k < addr.len() ==> 0 <= #[trigger] addr[k] < pow2(part_width(v6) as nat),
    ensures
        in_network(v6, addr, cidr) <==> ip_parts(trim_spec(cidr)) == Some((v6, addr)),
{
    let net_text = trim_spec(cidr);
    lemma_ip_parts_len(net_text);
    lemma_ip_parts_bound(net_text);
    if let Some((net_v6, net)) = ip_parts(net_text) {
        if net_v6 == v6 {
            lemma_full_prefix(addr, net, part_width(v6));
        }
    }
}

} // verus!
