//! IP addresses as text: dotted decimal and colon-separated hexadecimal.

use vstd::prelude::*;

use crate::addr::{v6_of, IpAddr, Ipv4Addr, Ipv6Addr};
use crate::number::{
    dec, dec_reads_back, dec_text, digit_value, digits_value, hex, hex_reads_back, hex_text,
    number_in, read_number,
};
use crate::text::{chars_of, find_from, first_of, lemma_first_where, lemma_first_where_at, only};

verus! {

// ---------------------------------------------------------------------------
// IPv4 text
// ---------------------------------------------------------------------------

/// The text of an IPv4 address.
pub open spec fn v4_text(ip: Ipv4Addr) -> Seq<char> {
    dec(ip.a as nat).push('.') + (dec(ip.b as nat).push('.') + (dec(ip.c as nat).push('.') + dec(
        ip.d as nat,
    )))
}

/// The text of an IPv4 address holds digits and dots alone.
pub proof fn lemma_v4_text_chars(ip: Ipv4Addr)
    ensures
        v4_text(ip).len() > 0,
        forall|k: int|
            0 <= k < v4_text(ip).len() ==> (#[trigger] v4_text(ip)[k] == '.' || 48 <= v4_text(
                ip,
            )[k] as int <= 57),
{
    let a = v4_text(ip);
    dec_reads_back(ip.a as nat);
    dec_reads_back(ip.b as nat);
    dec_reads_back(ip.c as nat);
    dec_reads_back(ip.d as nat);
    assert forall|k: int| 0 <= k < a.len() implies (#[trigger] a[k] == '.' || 48 <= a[k] as int
        <= 57) by {
        let (x, y, z, w) = (dec(ip.a as nat), dec(ip.b as nat), dec(ip.c as nat), dec(ip.d as nat));
        let (i, j, l) = (x.len() as int, x.len() + y.len() + 1, x.len() + y.len() + z.len() + 2);
        if k < i {
            assert(a[k] == x[k]);
            assert(digit_value(x[k], 10) is Some);
        } else if i < k < j {
            assert(a[k] == y[k - i - 1]);
            assert(digit_value(y[k - i - 1], 10) is Some);
        } else if j < k < l {
            assert(a[k] == z[k - j - 1]);
            assert(digit_value(z[k - j - 1], 10) is Some);
        } else if l < k {
            assert(a[k] == w[k - l - 1]);
            assert(digit_value(w[k - l - 1], 10) is Some);
        }
    }
}

/// One decimal octet: one to three digits, no leading zero, no more than 255.
pub open spec fn octet(s: Seq<char>) -> Option<nat> {
    if s.len() <= 3 && (s.len() > 1 ==> s[0] != '0') {
        number_in(s, 10, 255)
    } else {
        None
    }
}

/// The last `n` octets of an address, separated by dots.
pub open spec fn octets(s: Seq<char>, n: nat) -> Option<Seq<nat>>
    decreases n,
{
    let i = first_of(s, '.');
    if n == 0 {
        None
    } else if n == 1 {
        match octet(s) {
            Some(x) => Some(seq![x]),
            None => None,
        }
    } else if i >= s.len() {
        None
    } else {
        match (octet(s.take(i)), octets(s.skip(i + 1), (n - 1) as nat)) {
            (Some(x), Some(r)) => Some(seq![x] + r),
            _ => None,
        }
    }
}

/// The address that a text writes in dotted decimal.
pub open spec fn v4_of_text(s: Seq<char>) -> Option<Ipv4Addr> {
    match octets(s, 4) {
        Some(o) => Some(Ipv4Addr { a: o[0] as u8, b: o[1] as u8, c: o[2] as u8, d: o[3] as u8 }),
        None => None,
    }
}

/// Writes an IPv4 address as text.
pub fn ipv4_text(ip: Ipv4Addr) -> (out: String)
    ensures
        out@ == v4_text(ip),
{
    let mut out = dec_text(ip.a as u64);
    out.push('.');
    let b = dec_text(ip.b as u64);
    out.append(b.as_str());
    out.push('.');
    let c = dec_text(ip.c as u64);
    out.append(c.as_str());
    out.push('.');
    let d = dec_text(ip.d as u64);
    out.append(d.as_str());
    assert(out@ =~= v4_text(ip));
    out
}

fn read_octet(v: &Vec<char>, from: usize, to: usize) -> (out: Option<u32>)
    requires
        from <= to <= v@.len(),
    ensures
        match out {
            Some(n) => octet(v@.subrange(from as int, to as int)) == Some(n as nat) && n <= 255,
            None => octet(v@.subrange(from as int, to as int)) is None,
        },
{
    if to - from > 3 {
        return None;
    }
    if to - from > 1 && v[from] == '0' {
        return None;
    }
    read_number(v, from, to, 10, 255)
}

proof fn lemma_octets_len(s: Seq<char>, n: nat)
    ensures
        octets(s, n) matches Some(o) ==> o.len() == n,
    decreases n,
{
    if n > 1 {
        lemma_octets_len(s.skip(first_of(s, '.') + 1), (n - 1) as nat);
    }
}

fn read_octets(v: &Vec<char>, from: usize, to: usize, n: u32) -> (out: Option<Vec<u32>>)
    requires
        from <= to <= v@.len(),
        1 <= n <= 4,
    ensures
        match out {
            Some(o) => {
                &&& octets(v@.subrange(from as int, to as int), n as nat) matches Some(e)
                &&& e.len() == n
                &&& o@.len() == n
                &&& forall|k: int| 0 <= k < n ==> e[k] == #[trigger] o@[k] && o@[k] <= 255
            },
            None => octets(v@.subrange(from as int, to as int), n as nat) is None,
        },
    decreases n,
{
    let ghost s = v@.subrange(from as int, to as int);
    if n == 1 {
        return match read_octet(v, from, to) {
            Some(x) => {
                let mut o: Vec<u32> = Vec::new();
                o.push(x);
                Some(o)
            },
            None => None,
        };
    }
    let i = find_from(v, from, to, '.');
    if i >= to {
        return None;
    }
    proof {
        assert(s.take(i - from) =~= v@.subrange(from as int, i as int));
        assert(s.skip(i - from + 1) =~= v@.subrange(i + 1, to as int));
        lemma_octets_len(s.skip(i - from + 1), (n - 1) as nat);
    }
    match read_octet(v, from, i) {
        Some(x) => match read_octets(v, i + 1, to, n - 1) {
            Some(mut rest) => {
                let ghost r = rest@;
                rest.insert(0, x);
                proof {
                    let e = octets(s, n as nat)->0;
                    assert forall|k: int| 0 <= k < n implies e[k] == #[trigger] rest@[k]
                        && rest@[k] <= 255 by {
                        if k > 0 {
                            assert(rest@[k] == r[k - 1]);
                        }
                    }
                }
                Some(rest)
            },
            None => None,
        },
        None => None,
    }
}

fn read_ipv4(v: &Vec<char>, from: usize, to: usize) -> (out: Option<Ipv4Addr>)
    requires
        from <= to <= v@.len(),
    ensures
        out == v4_of_text(v@.subrange(from as int, to as int)),
{
    match read_octets(v, from, to, 4) {
        Some(o) => Some(
            Ipv4Addr { a: o[0] as u8, b: o[1] as u8, c: o[2] as u8, d: o[3] as u8 },
        ),
        None => None,
    }
}

/// Reads an IPv4 address in dotted decimal.
pub fn parse_ipv4(s: &str) -> (out: Option<Ipv4Addr>)
    ensures
        out == v4_of_text(s@),
{
    let v = chars_of(s);
    assert(v@.subrange(0, v@.len() as int) =~= s@);
    read_ipv4(&v, 0, v.len())
}

/// The text of an address is read back as that address.
pub proof fn ipv4_text_reads_back(ip: Ipv4Addr)
    ensures
        v4_of_text(v4_text(ip)) == Some(ip),
{
    let (a, b, c, d) = (dec(ip.a as nat), dec(ip.b as nat), dec(ip.c as nat), dec(ip.d as nat));
    let cd = c.push('.') + d;
    let bcd = b.push('.') + cd;
    lemma_octet_of_dec(ip.a);
    lemma_octet_of_dec(ip.b);
    lemma_octet_of_dec(ip.c);
    lemma_octet_of_dec(ip.d);
    assert(octets(d, 1) == Some(seq![ip.d as nat]));
    lemma_octets_step(c, d, 1, ip.c as nat);
    lemma_octets_step(b, cd, 2, ip.b as nat);
    lemma_octets_step(a, bcd, 3, ip.a as nat);
    let o = octets(v4_text(ip), 4)->0;
    assert(o =~= seq![ip.a as nat, ip.b as nat, ip.c as nat, ip.d as nat]);
}

/// Each address has one text: a text that reads as an address is that address's text.
pub proof fn ipv4_text_is_unique(s: Seq<char>, ip: Ipv4Addr)
    requires
        v4_of_text(s) == Some(ip),
    ensures
        s == v4_text(ip),
{
    let o = octets(s, 4)->0;
    lemma_octets_len(s, 4);
    lemma_octets_unstep(s, 4);
    let s1 = s.skip(first_of(s, '.') + 1);
    let o1 = octets(s1, 3)->0;
    lemma_octets_len(s1, 3);
    lemma_octets_unstep(s1, 3);
    let s2 = s1.skip(first_of(s1, '.') + 1);
    let o2 = octets(s2, 2)->0;
    lemma_octets_len(s2, 2);
    lemma_octets_unstep(s2, 2);
    let s3 = s2.skip(first_of(s2, '.') + 1);
    let o3 = octets(s3, 1)->0;
    lemma_octet_is_dec(s3);
    assert(o[1] == o1[0] && o[2] == o1[1] && o[3] == o1[2]);
    assert(o1[1] == o2[0] && o1[2] == o2[1]);
    assert(o2[1] == o3[0]);
    assert(s3 == dec(o[3]));
    assert(s2 == dec(o[2]).push('.') + dec(o[3]));
    assert(s1 == dec(o[1]).push('.') + s2);
    assert(s == dec(o[0]).push('.') + s1);
    assert(o[0] == ip.a && o[1] == ip.b && o[2] == ip.c && o[3] == ip.d);
}

proof fn lemma_octet_of_dec(n: u8)
    ensures
        octet(dec(n as nat)) == Some(n as nat),
        forall|i: int| 0 <= i < dec(n as nat).len() ==> #[trigger] dec(n as nat)[i] != '.',
        forall|i: int| 0 <= i < dec(n as nat).len() ==> #[trigger] dec(n as nat)[i] != ':',
{
    dec_reads_back(n as nat);
    let m = n as nat;
    reveal_with_fuel(dec, 4);
    assert(dec(m).len() <= 3);
    assert forall|i: int| 0 <= i < dec(m).len() implies #[trigger] dec(m)[i] != '.' && dec(m)[i]
        != ':' by {
        assert(digit_value(dec(m)[i], 10) is Some);
    }
}

proof fn lemma_octets_step(x: Seq<char>, rest: Seq<char>, n: nat, value: nat)
    requires
        n >= 1,
        octet(x) == Some(value),
        forall|i: int| 0 <= i < x.len() ==> #[trigger] x[i] != '.',
        octets(rest, n) is Some,
    ensures
        octets(x.push('.') + rest, n + 1) == Some(seq![value] + octets(rest, n)->0),
{
    let s = x.push('.') + rest;
    lemma_first_where_at(s, only('.'), x.len() as int);
    assert(s.take(x.len() as int) =~= x);
    assert(s.skip(x.len() as int + 1) =~= rest);
}

proof fn lemma_octets_unstep(s: Seq<char>, n: nat)
    requires
        n >= 2,
        octets(s, n) is Some,
    ensures
        ({
            let i = first_of(s, '.');
            &&& 0 <= i < s.len()
            &&& octets(s.skip(i + 1), (n - 1) as nat) is Some
            &&& octets(s, n)->0 == seq![octets(s, n)->0[0]] + octets(s.skip(i + 1), (n - 1) as nat)->0
            &&& 0 <= octets(s, n)->0[0] <= 255
            &&& s == dec(octets(s, n)->0[0]).push('.') + s.skip(i + 1)
        }),
{
    lemma_first_where(s, only('.'));
    let i = first_of(s, '.');
    lemma_octet_is_dec(s.take(i));
    assert(octets(s, n)->0[0] == octet(s.take(i))->0);
    assert(s =~= s.take(i).push('.') + s.skip(i + 1));
}

proof fn lemma_octet_is_dec(s: Seq<char>)
    requires
        octet(s) is Some,
    ensures
        s == dec(octet(s)->0),
        octet(s)->0 <= 255,
{
    reveal_with_fuel(digits_value, 4);
    reveal_with_fuel(dec, 4);
    let n = octet(s)->0;
    assert(digit_value(s[0], 10) is Some);
    if s.len() == 1 {
        assert(s =~= dec(n));
    } else if s.len() == 2 {
        assert(digit_value(s[1], 10) is Some);
        assert(s.drop_last() =~= seq![s[0]]);
        assert(s.drop_last().drop_last() =~= Seq::<char>::empty());
        assert(n == digit_value(s[0], 10)->0 * 10 + digit_value(s[1], 10)->0);
        assert(s =~= dec(n));
    } else {
        assert(digit_value(s[1], 10) is Some);
        assert(digit_value(s[2], 10) is Some);
        assert(s.drop_last() =~= seq![s[0], s[1]]);
        assert(s.drop_last().drop_last() =~= seq![s[0]]);
        assert(s.drop_last().drop_last().drop_last() =~= Seq::<char>::empty());
        assert(n == (digit_value(s[0], 10)->0 * 10 + digit_value(s[1], 10)->0) * 10 + digit_value(
            s[2],
            10,
        )->0);
        assert(s =~= dec(n));
    }
}

// ---------------------------------------------------------------------------
// IPv6 text
// ---------------------------------------------------------------------------

/// One segment: one to four hexadecimal digits.
pub open spec fn segment(s: Seq<char>) -> Option<nat> {
    if s.len() <= 4 {
        number_in(s, 16, 0xffff)
    } else {
        None
    }
}

/// The last part of a list of segments: one segment or, where it is allowed, a dotted
/// IPv4 address that fills two.
pub open spec fn last_segments(s: Seq<char>, dotted: bool) -> Option<Seq<u16>> {
    match segment(s) {
        Some(x) => Some(seq![x as u16]),
        None => match v4_of_text(s) {
            Some(ip) => if dotted {
                Some(seq![(ip.a * 0x100 + ip.b) as u16, (ip.c * 0x100 + ip.d) as u16])
            } else {
                None
            },
            None => None,
        },
    }
}

/// The segments that a text lists, separated by colons.
pub open spec fn segments_of(s: Seq<char>, dotted: bool) -> Option<Seq<u16>>
    decreases s.len(),
    via segments_of_decreases
{
    let i = first_of(s, ':');
    if i >= s.len() {
        last_segments(s, dotted)
    } else {
        match (segment(s.take(i)), segments_of(s.skip(i + 1), dotted)) {
            (Some(x), Some(r)) => Some(seq![x as u16] + r),
            _ => None,
        }
    }
}

#[via_fn]
proof fn segments_of_decreases(s: Seq<char>, dotted: bool) {
    lemma_first_where(s, only(':'));
}

/// The segments on one side of a double colon, where there may be none.
pub open spec fn side_of(s: Seq<char>, dotted: bool) -> Option<Seq<u16>> {
    if s.len() == 0 {
        Some(Seq::empty())
    } else {
        segments_of(s, dotted)
    }
}

/// The position of the first double colon, or the length if there is none.
pub open spec fn double_colon(s: Seq<char>) -> int
    decreases s.len(),
{
    if s.len() < 2 {
        s.len() as int
    } else if s[0] == ':' && s[1] == ':' {
        0
    } else {
        1 + double_colon(s.skip(1))
    }
}

/// `n` zero segments.
pub open spec fn zeros(n: nat) -> Seq<u16> {
    Seq::new(n, |i: int| 0u16)
}

/// The segments that a text writes: eight of them, or fewer around one double colon
/// that stands for at least one zero segment.
pub open spec fn v6_segments(s: Seq<char>) -> Option<Seq<u16>> {
    let i = double_colon(s);
    if i >= s.len() {
        match side_of(s, true) {
            Some(g) => if g.len() == 8 {
                Some(g)
            } else {
                None
            },
            None => None,
        }
    } else {
        match (side_of(s.take(i), false), side_of(s.skip(i + 2), true)) {
            (Some(h), Some(t)) => if h.len() + t.len() <= 7 {
                Some(h + zeros((8 - h.len() - t.len()) as nat) + t)
            } else {
                None
            },
            _ => None,
        }
    }
}

/// The IPv6 address that a text writes.
pub open spec fn v6_of_text(s: Seq<char>) -> Option<Ipv6Addr> {
    match v6_segments(s) {
        Some(g) => Some(v6_of(g)),
        None => None,
    }
}

/// The address, of either family, that a text writes.
pub open spec fn ip_of_text(s: Seq<char>) -> Option<IpAddr> {
    match v4_of_text(s) {
        Some(ip) => Some(IpAddr::V4(ip)),
        None => match v6_of_text(s) {
            Some(ip) => Some(IpAddr::V6(ip)),
            None => None,
        },
    }
}

fn read_segment(v: &Vec<char>, from: usize, to: usize) -> (out: Option<u16>)
    requires
        from <= to <= v@.len(),
    ensures
        match out {
            Some(n) => segment(v@.subrange(from as int, to as int)) == Some(n as nat),
            None => segment(v@.subrange(from as int, to as int)) is None,
        },
{
    if to - from > 4 {
        return None;
    }
    match read_number(v, from, to, 16, 0xffff) {
        Some(n) => Some(n as u16),
        None => None,
    }
}

fn read_last(v: &Vec<char>, from: usize, to: usize, dotted: bool, out: &mut Vec<u16>) -> (ok: bool)
    requires
        from <= to <= v@.len(),
    ensures
        match last_segments(v@.subrange(from as int, to as int), dotted) {
            Some(r) => ok && final(out)@ == old(out)@ + r,
            None => !ok,
        },
{
    let ghost before = out@;
    match read_segment(v, from, to) {
        Some(x) => {
            out.push(x);
            assert(out@ =~= before + seq![x]);
            true
        },
        None => match read_ipv4(v, from, to) {
            Some(ip) => {
                if !dotted {
                    return false;
                }
                let hi: u16 = ip.a as u16 * 0x100 + ip.b as u16;
                let lo: u16 = ip.c as u16 * 0x100 + ip.d as u16;
                out.push(hi);
                out.push(lo);
                assert(out@ =~= before + seq![hi, lo]);
                true
            },
            None => false,
        },
    }
}

fn read_side(v: &Vec<char>, from: usize, to: usize, dotted: bool) -> (out: Option<Vec<u16>>)
    requires
        from <= to <= v@.len(),
    ensures
        match out {
            Some(g) => side_of(v@.subrange(from as int, to as int), dotted) == Some(g@),
            None => side_of(v@.subrange(from as int, to as int), dotted) is None,
        },
{
    let ghost s = v@.subrange(from as int, to as int);
    let mut out: Vec<u16> = Vec::new();
    if from == to {
        return Some(out);
    }
    let mut start: usize = from;
    assert(s.skip(0) =~= s);
    proof {
        if segments_of(s, dotted) is Some {
            assert(out@ + segments_of(s, dotted)->0 =~= segments_of(s, dotted)->0);
        }
    }
    loop
        invariant
            from <= start <= to <= v@.len(),
            s == v@.subrange(from as int, to as int),
            s.len() > 0,
            match segments_of(s.skip(start - from), dotted) {
                Some(r) => segments_of(s, dotted) == Some(out@ + r),
                None => segments_of(s, dotted) is None,
            },
        decreases to - start,
    {
        let i = find_from(v, start, to, ':');
        let ghost rest = s.skip(start - from);
        assert(rest =~= v@.subrange(start as int, to as int));
        if i >= to {
            if read_last(v, start, to, dotted, &mut out) {
                return Some(out);
            }
            return None;
        }
        assert(rest.take(i - start) =~= v@.subrange(start as int, i as int));
        assert(rest.skip(i - start + 1) =~= s.skip(i + 1 - from));
        match read_segment(v, start, i) {
            Some(x) => {
                let ghost before = out@;
                out.push(x);
                proof {
                    let tail = segments_of(s.skip(i + 1 - from), dotted);
                    if tail is Some {
                        assert(before + (seq![x] + tail->0) =~= out@ + tail->0);
                    }
                }
            },
            None => {
                return None;
            },
        }
        start = i + 1;
    }
}

proof fn lemma_double_colon_at(s: Seq<char>, i: int)
    requires
        0 <= i <= s.len(),
        i < s.len() ==> i + 1 < s.len() && s[i] == ':' && s[i + 1] == ':',
        forall|k: int| 0 <= k < i && k + 1 < s.len() ==> !(#[trigger] s[k] == ':' && s[k + 1] == ':'),
    ensures
        double_colon(s) == i,
    decreases s.len(),
{
    if s.len() >= 2 && i > 0 {
        let t = s.skip(1);
        assert(!(s[0] == ':' && s[1] == ':'));
        assert forall|k: int| 0 <= k < i - 1 && k + 1 < t.len() implies !(#[trigger] t[k] == ':' && t[k
            + 1] == ':') by {
            assert(!(s[k + 1] == ':' && s[k + 2] == ':'));
        }
        lemma_double_colon_at(t, i - 1);
    } else if s.len() < 2 {
        if i < s.len() {
            assert(false);
        }
    }
}

fn find_double_colon(v: &Vec<char>) -> (i: usize)
    ensures
        i == double_colon(v@),
        i <= v@.len(),
        i < v@.len() ==> i + 1 < v@.len(),
{
    let mut i: usize = 0;
    while i < v.len() && v.len() - i >= 2
        invariant
            i <= v@.len(),
            forall|k: int|
                0 <= k < i && k + 1 < v@.len() ==> !(#[trigger] v@[k] == ':' && v@[k + 1] == ':'),
        decreases v@.len() - i,
    {
        if v[i] == ':' && v[i + 1] == ':' {
            proof {
                lemma_double_colon_at(v@, i as int);
            }
            return i;
        }
        i = i + 1;
    }
    proof {
        lemma_double_colon_at(v@, v@.len() as int);
    }
    v.len()
}

fn v6_from(g: &Vec<u16>) -> (ip: Ipv6Addr)
    requires
        g@.len() == 8,
    ensures
        ip == v6_of(g@),
{
    Ipv6Addr {
        s0: g[0],
        s1: g[1],
        s2: g[2],
        s3: g[3],
        s4: g[4],
        s5: g[5],
        s6: g[6],
        s7: g[7],
    }
}

fn read_ipv6(v: &Vec<char>) -> (out: Option<Ipv6Addr>)
    ensures
        out == v6_of_text(v@),
{
    let i = find_double_colon(v);
    if i >= v.len() {
        assert(v@.subrange(0, v@.len() as int) =~= v@);
        return match read_side(v, 0, v.len(), true) {
            Some(g) => if g.len() == 8 {
                Some(v6_from(&g))
            } else {
                None
            },
            None => None,
        };
    }
    assert(v@.subrange(0, i as int) =~= v@.take(i as int));
    assert(v@.subrange(i + 2, v@.len() as int) =~= v@.skip(i + 2));
    match read_side(v, 0, i, false) {
        Some(mut h) => match read_side(v, i + 2, v.len(), true) {
            Some(mut t) => {
                if h.len() > 7 || t.len() > 7 - h.len() {
                    return None;
                }
                let ghost head = h@;
                let ghost n = (8 - h@.len() - t@.len()) as nat;
                let fill: usize = 8 - h.len() - t.len();
                let mut k: usize = 0;
                while k < fill
                    invariant
                        k <= fill,
                        n == fill,
                        h@ == head + zeros(k as nat),
                    decreases fill - k,
                {
                    h.push(0);
                    k = k + 1;
                    assert(h@ =~= head + zeros(k as nat));
                }
                h.append(&mut t);
                Some(v6_from(&h))
            },
            None => None,
        },
        None => None,
    }
}

/// Reads an IP address of either family.
pub fn parse_ip(s: &str) -> (out: Option<IpAddr>)
    ensures
        out == ip_of_text(s@),
{
    let v = chars_of(s);
    assert(v@.subrange(0, v@.len() as int) =~= s@);
    match read_ipv4(&v, 0, v.len()) {
        Some(ip) => Some(IpAddr::V4(ip)),
        None => match read_ipv6(&v) {
            Some(ip) => Some(IpAddr::V6(ip)),
            None => None,
        },
    }
}

/// The segments as hexadecimal numbers separated by colons.
pub open spec fn colon_list(g: Seq<u16>) -> Seq<char>
    decreases g.len(),
{
    if g.len() == 0 {
        Seq::empty()
    } else if g.len() == 1 {
        hex(g[0] as nat)
    } else {
        hex(g[0] as nat).push(':') + colon_list(g.skip(1))
    }
}

/// How many zero segments stand in a row from position `i` on.
pub open spec fn zero_run(g: Seq<u16>, i: int) -> nat
    decreases g.len() - i,
{
    if 0 <= i < g.len() && g[i] == 0 {
        1 + zero_run(g, i + 1)
    } else {
        0
    }
}

/// Where the longest row of zero segments among the first `n` starting points begins,
/// the first such row where several are as long.
pub open spec fn longest_zeros(g: Seq<u16>, n: nat) -> int
    decreases n,
{
    if n <= 1 {
        0
    } else {
        let best = longest_zeros(g, (n - 1) as nat);
        if zero_run(g, n - 1) > zero_run(g, best) {
            n - 1
        } else {
            best
        }
    }
}

/// Whether an address is an IPv4 address mapped into IPv6.
pub open spec fn is_mapped(g: Seq<u16>) -> bool {
    g[0] == 0 && g[1] == 0 && g[2] == 0 && g[3] == 0 && g[4] == 0 && g[5] == 0xffff
}

/// The IPv4 address that the last two segments hold.
pub open spec fn mapped_v4(g: Seq<u16>) -> Ipv4Addr {
    Ipv4Addr {
        a: (g[6] / 0x100) as u8,
        b: (g[6] % 0x100) as u8,
        c: (g[7] / 0x100) as u8,
        d: (g[7] % 0x100) as u8,
    }
}

/// The text of an IPv6 address: the longest row of two or more zero segments written
/// as a double colon, mapped IPv4 addresses in dotted decimal.
pub open spec fn v6_text(ip: Ipv6Addr) -> Seq<char> {
    let g = ip.segments();
    if is_mapped(g) {
        "::ffff:"@ + v4_text(mapped_v4(g))
    } else {
        let i = longest_zeros(g, 8);
        let n = zero_run(g, i);
        if n > 1 {
            colon_list(g.take(i)) + "::"@ + colon_list(g.skip(i + n))
        } else {
            colon_list(g)
        }
    }
}

/// The text of an address of either family.
pub open spec fn ip_text(ip: IpAddr) -> Seq<char> {
    match ip {
        IpAddr::V4(v4) => v4_text(v4),
        IpAddr::V6(v6) => v6_text(v6),
    }
}

fn push_colon_list(out: &mut String, g: &Vec<u16>, from: usize, to: usize)
    requires
        from <= to <= g@.len(),
    ensures
        final(out)@ == old(out)@ + colon_list(g@.subrange(from as int, to as int)),
{
    let ghost s = g@.subrange(from as int, to as int);
    let mut i: usize = from;
    assert(s.skip(0) =~= s);
    let ghost before = out@;
    while i < to
        invariant
            from <= i <= to <= g@.len(),
            s == g@.subrange(from as int, to as int),
            out@ + colon_list(s.skip(i - from)) == before + colon_list(s),
        decreases to - i,
    {
        let ghost rest = s.skip(i - from);
        let ghost so_far = out@;
        let text = hex_text(g[i] as u32);
        out.append(text.as_str());
        proof {
            assert(rest.skip(1) =~= s.skip(i + 1 - from));
            assert(rest[0] == g@[i as int]);
        }
        if to - i > 1 {
            out.push(':');
            assert(out@ + colon_list(s.skip(i + 1 - from)) =~= so_far + (hex(
                g@[i as int] as nat,
            ).push(':') + colon_list(s.skip(i + 1 - from))));
        } else {
            assert(s.skip(i + 1 - from) =~= Seq::<u16>::empty());
            assert(out@ + colon_list(s.skip(i + 1 - from)) =~= so_far + hex(g@[i as int] as nat));
        }
        i = i + 1;
    }
    assert(s.skip(to - from) =~= Seq::<u16>::empty());
    assert(out@ + Seq::<char>::empty() =~= out@);
}

fn count_zeros(g: &Vec<u16>, i: usize) -> (n: usize)
    requires
        g@.len() == 8,
        i <= 8,
    ensures
        n == zero_run(g@, i as int),
        i + n <= 8,
    decreases 8 - i,
{
    if i < 8 && g[i] == 0 {
        1 + count_zeros(g, i + 1)
    } else {
        0
    }
}

/// Writes an IPv6 address as text.
pub fn ipv6_text(ip: Ipv6Addr) -> (out: String)
    ensures
        out@ == v6_text(ip),
{
    let mut g: Vec<u16> = Vec::new();
    g.push(ip.s0);
    g.push(ip.s1);
    g.push(ip.s2);
    g.push(ip.s3);
    g.push(ip.s4);
    g.push(ip.s5);
    g.push(ip.s6);
    g.push(ip.s7);
    assert(g@ =~= ip.segments());
    if g[0] == 0 && g[1] == 0 && g[2] == 0 && g[3] == 0 && g[4] == 0 && g[5] == 0xffff {
        let v4 = Ipv4Addr {
            a: (g[6] / 0x100) as u8,
            b: (g[6] % 0x100) as u8,
            c: (g[7] / 0x100) as u8,
            d: (g[7] % 0x100) as u8,
        };
        let mut out = "::ffff:".to_owned();
        let text = ipv4_text(v4);
        out.append(text.as_str());
        return out;
    }
    let mut best: usize = 0;
    let mut best_run: usize = count_zeros(&g, 0);
    let mut k: usize = 1;
    while k < 8
        invariant
            1 <= k <= 8,
            g@.len() == 8,
            best < 8,
            best == longest_zeros(g@, k as nat),
            best_run == zero_run(g@, best as int),
            best + best_run <= 8,
        decreases 8 - k,
    {
        let run = count_zeros(&g, k);
        if run > best_run {
            best = k;
            best_run = run;
        }
        k = k + 1;
    }
    let mut out = String::new();
    if best_run > 1 {
        push_colon_list(&mut out, &g, 0, best);
        out.append("::");
        push_colon_list(&mut out, &g, best + best_run, 8);
        assert(g@.subrange(0, best as int) =~= g@.take(best as int));
        assert(g@.subrange(best + best_run, 8) =~= g@.skip(best + best_run));
        assert(out@ =~= v6_text(ip));
    } else {
        push_colon_list(&mut out, &g, 0, 8);
        assert(g@.subrange(0, 8) =~= g@);
        assert(out@ =~= v6_text(ip));
    }
    out
}

/// Writes an address of either family as text.
pub fn ip_to_text(ip: IpAddr) -> (out: String)
    ensures
        out@ == ip_text(ip),
{
    match ip {
        IpAddr::V4(v4) => ipv4_text(v4),
        IpAddr::V6(v6) => ipv6_text(v6),
    }
}

proof fn lemma_segment_of_hex(n: u16)
    ensures
        segment(hex(n as nat)) == Some(n as nat),
        hex(n as nat).len() > 0,
        forall|i: int| 0 <= i < hex(n as nat).len() ==> #[trigger] hex(n as nat)[i] != ':',
{
    let m = n as nat;
    hex_reads_back(m);
    reveal_with_fuel(hex, 5);
    assert(hex(m).len() <= 4);
    assert forall|i: int| 0 <= i < hex(m).len() implies #[trigger] hex(m)[i] != ':' by {
        assert(digit_value(hex(m)[i], 16) is Some);
    }
}

proof fn lemma_colon_list_reads_back(g: Seq<u16>, dotted: bool)
    requires
        g.len() > 0,
    ensures
        segments_of(colon_list(g), dotted) == Some(g),
        colon_list(g).len() > 0,
        colon_list(g)[0] != ':',
        colon_list(g).last() != ':',
        forall|k: int|
            0 <= k && k + 1 < colon_list(g).len() ==> !(#[trigger] colon_list(g)[k] == ':'
                && colon_list(g)[k + 1] == ':'),
    decreases g.len(),
{
    let h = hex(g[0] as nat);
    let s = colon_list(g);
    lemma_segment_of_hex(g[0]);
    if g.len() == 1 {
        lemma_first_where_at(s, only(':'), s.len() as int);
        assert(g =~= seq![g[0]]);
    } else {
        let rest = colon_list(g.skip(1));
        lemma_colon_list_reads_back(g.skip(1), dotted);
        lemma_first_where_at(s, only(':'), h.len() as int);
        assert(s.take(h.len() as int) =~= h);
        assert(s.skip(h.len() as int + 1) =~= rest);
        assert(seq![g[0]] + g.skip(1) =~= g);
        assert forall|k: int| 0 <= k && k + 1 < s.len() implies !(#[trigger] s[k] == ':' && s[k + 1]
            == ':') by {
            if k < h.len() {
                assert(s[k] == h[k]);
            } else if k == h.len() {
                assert(s[k + 1] == rest[0]);
            } else {
                let j = k - h.len() - 1;
                assert(s[k] == rest[j]);
                assert(s[k + 1] == rest[j + 1]);
            }
        }
    }
}

proof fn lemma_zero_run(g: Seq<u16>, i: int)
    requires
        0 <= i <= g.len(),
    ensures
        i + zero_run(g, i) <= g.len(),
        forall|k: int| i <= k < i + zero_run(g, i) ==> #[trigger] g[k] == 0,
    decreases g.len() - i,
{
    if i < g.len() && g[i] == 0 {
        lemma_zero_run(g, i + 1);
    }
}

proof fn lemma_longest_zeros(g: Seq<u16>, n: nat)
    requires
        1 <= n <= g.len(),
    ensures
        0 <= longest_zeros(g, n) < n,
    decreases n,
{
    if n > 1 {
        lemma_longest_zeros(g, (n - 1) as nat);
    }
}

/// A side around a double colon, possibly empty, reads back, and the double colon
/// after it is the first one.
proof fn lemma_around_double_colon(h: Seq<u16>, t: Seq<u16>)
    requires
        h.len() + t.len() <= 7,
    ensures
        v6_segments(colon_list(h) + "::"@ + colon_list(t)) == Some(
            h + zeros((8 - h.len() - t.len()) as nat) + t,
        ),
{
    reveal_strlit("::");
    let hs = colon_list(h);
    let ts = colon_list(t);
    let s = hs + "::"@ + ts;
    if h.len() > 0 {
        lemma_colon_list_reads_back(h, false);
    } else {
        assert(h =~= Seq::<u16>::empty());
    }
    if t.len() > 0 {
        lemma_colon_list_reads_back(t, true);
    } else {
        assert(t =~= Seq::<u16>::empty());
    }
    assert forall|k: int| 0 <= k < hs.len() && k + 1 < s.len() implies !(#[trigger] s[k] == ':'
        && s[k + 1] == ':') by {
        assert(s[k] == hs[k]);
        if k + 1 < hs.len() {
            assert(s[k + 1] == hs[k + 1]);
        }
    }
    lemma_double_colon_at(s, hs.len() as int);
    assert(s.take(hs.len() as int) =~= hs);
    assert(s.skip(hs.len() as int + 2) =~= ts);
}

/// The text of an IPv6 address is read back as that address.
pub proof fn ipv6_text_reads_back(ip: Ipv6Addr)
    ensures
        v6_of_text(v6_text(ip)) == Some(ip),
{
    let g = ip.segments();
    let s = v6_text(ip);
    if is_mapped(g) {
        lemma_mapped_reads_back(g);
        assert(v6_of(g) == ip);
    } else {
        lemma_longest_zeros(g, 8);
        let i = longest_zeros(g, 8);
        lemma_zero_run(g, i);
        let n = zero_run(g, i);
        if n > 1 {
            lemma_around_double_colon(g.take(i), g.skip(i + n));
            assert(g.take(i) + zeros(n) + g.skip(i + n) =~= g);
        } else {
            lemma_colon_list_reads_back(g, true);
            lemma_double_colon_at(s, s.len() as int);
        }
        assert(v6_of(g) == ip);
    }
}

proof fn lemma_no_colon_in_v4(ip: Ipv4Addr)
    ensures
        forall|k: int| 0 <= k < v4_text(ip).len() ==> #[trigger] v4_text(ip)[k] != ':',
{
    lemma_octet_of_dec(ip.a);
    lemma_octet_of_dec(ip.b);
    lemma_octet_of_dec(ip.c);
    lemma_octet_of_dec(ip.d);
}

proof fn lemma_all_ones_segment()
    ensures
        segment(seq!['f', 'f', 'f', 'f']) == Some(0xffffnat),
{
    reveal_with_fuel(digits_value, 5);
    let head = seq!['f', 'f', 'f', 'f'];
    assert(head.drop_last() =~= seq!['f', 'f', 'f']);
    assert(head.drop_last().drop_last() =~= seq!['f', 'f']);
    assert(head.drop_last().drop_last().drop_last() =~= seq!['f']);
    assert(head.drop_last().drop_last().drop_last().drop_last() =~= Seq::<char>::empty());
    assert(digits_value(head, 16) == 0xffff);
}

/// A dotted address after a list of segments fills the last two.
proof fn lemma_dotted_segments(v4: Ipv4Addr)
    ensures
        segments_of(v4_text(v4), true) == Some(
            seq![(v4.a * 0x100 + v4.b) as u16, (v4.c * 0x100 + v4.d) as u16],
        ),
{
    let t = v4_text(v4);
    lemma_no_colon_in_v4(v4);
    ipv4_text_reads_back(v4);
    lemma_first_where_at(t, only(':'), t.len() as int);
    if segment(t) is Some {
        let dot = dec(v4.a as nat).len() as int;
        assert(t[dot] == '.');
        assert(digit_value(t[dot], 16) is Some);
    }
}

proof fn lemma_mapped_reads_back(g: Seq<u16>)
    requires
        g.len() == 8,
        is_mapped(g),
    ensures
        v6_segments("::ffff:"@ + v4_text(mapped_v4(g))) == Some(g),
{
    reveal_strlit("::ffff:");
    let v4 = mapped_v4(g);
    let t = v4_text(v4);
    let s = "::ffff:"@ + t;
    let rest = seq!['f', 'f', 'f', 'f', ':'] + t;
    lemma_double_colon_at(s, 0);
    assert(s.take(0) =~= Seq::<char>::empty());
    assert(s.skip(2) =~= rest);
    let pair = seq![(v4.a * 0x100 + v4.b) as u16, (v4.c * 0x100 + v4.d) as u16];
    assert(segments_of(rest, true) == Some(seq![0xffffu16] + pair)) by {
        lemma_first_where_at(rest, only(':'), 4);
        assert(rest.take(4) =~= seq!['f', 'f', 'f', 'f']);
        assert(rest.skip(5) =~= t);
        lemma_all_ones_segment();
        lemma_dotted_segments(v4);
    }
    assert(pair =~= seq![g[6], g[7]]);
    assert(Seq::<u16>::empty() + zeros(5) + (seq![0xffffu16] + pair) =~= g);
}

/// The text of an address, of either family, is read back as that address.
pub proof fn ip_text_reads_back(ip: IpAddr)
    ensures
        ip_of_text(ip_text(ip)) == Some(ip),
{
    match ip {
        IpAddr::V4(v4) => {
            ipv4_text_reads_back(v4);
        },
        IpAddr::V6(v6) => {
            ipv6_text_reads_back(v6);
            let s = v6_text(v6);
            if v4_of_text(s) is Some {
                let v4 = v4_of_text(s)->0;
                ipv4_text_is_unique(s, v4);
                lemma_no_colon_in_v4(v4);
                lemma_v6_has_colon(v6);
            }
        },
    }
}

proof fn lemma_v6_has_colon(ip: Ipv6Addr)
    ensures
        exists|k: int| 0 <= k < v6_text(ip).len() && #[trigger] v6_text(ip)[k] == ':',
{
    reveal_strlit("::ffff:");
    reveal_strlit("::");
    let g = ip.segments();
    let s = v6_text(ip);
    if is_mapped(g) {
        assert(s[0] == ':');
    } else {
        let i = longest_zeros(g, 8);
        let n = zero_run(g, i);
        if n > 1 {
            let k = colon_list(g.take(i)).len() as int;
            assert(s[k] == ':');
        } else {
            let k = hex(g[0] as nat).len() as int;
            assert(s[k] == ':');
        }
    }
}

} // verus!
