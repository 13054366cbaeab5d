//! How addresses are written and read.

use vstd::prelude::*;

use crate::addr::{IpAddr, Ipv4Addr, Ipv6Addr};
use crate::ip_text::{
    colon_list, double_colon, ip_of_text, ip_text, ipv4_text_is_unique, ipv4_text_reads_back,
    longest_zeros, segment, segments_of, side_of, v4_of_text, v4_text, v6_of_text, v6_text,
    zero_run, zeros,
};
use crate::number::{dec, hex};
use crate::text::{lemma_first_where, lemma_first_where_at, only};
use crate::text_laws::{is_written_in, number_is_what_the_digits_are_worth, weight};

verus! {

/// An IPv4 address is written as its four octets in decimal with dots between them, and a
/// text is read as the address exactly if it is so written.
pub proof fn dotted_text_settles_the_address(s: Seq<char>, ip: Ipv4Addr)
    ensures
        ({
            let t = dec(ip.a as nat) + seq!['.'] + dec(ip.b as nat) + seq!['.'] + dec(ip.c as nat)
                + seq!['.'] + dec(ip.d as nat);
            &&& v4_text(ip) == t
            &&& v4_of_text(s) == Some(ip) <==> s == t
        }),
{
    let t = dec(ip.a as nat) + seq!['.'] + dec(ip.b as nat) + seq!['.'] + dec(ip.c as nat) + seq![
        '.',
    ] + dec(ip.d as nat);
    assert(v4_text(ip) =~= t);
    ipv4_text_reads_back(ip);
    if v4_of_text(s) == Some(ip) {
        ipv4_text_is_unique(s, ip);
    }
}

/// An address is written and read as one of its own family; where a text could be both, as
/// IPv4.
pub proof fn family_is_kept(s: Seq<char>, a: Ipv4Addr, b: Ipv6Addr)
    ensures
        ip_text(IpAddr::V4(a)) == v4_text(a),
        ip_text(IpAddr::V6(b)) == v6_text(b),
        v4_of_text(s) matches Some(x) ==> ip_of_text(s) == Some(IpAddr::V4(x)),
        v4_of_text(s) is None ==> match v6_of_text(s) {
            Some(y) => ip_of_text(s) == Some(IpAddr::V6(y)),
            None => ip_of_text(s) is None,
        },
{
}

// ---------------------------------------------------------------------------
// Reading IPv6 addresses
// ---------------------------------------------------------------------------

/// A segment is one to four hexadecimal digits, and nothing else is one.
pub proof fn segment_is_up_to_four_digits(s: Seq<char>, n: nat)
    ensures
        segment(s) == Some(n) <==> 1 <= s.len() <= 4 && is_written_in(s, 16) && weight(s, 16) == n,
{
    number_is_what_the_digits_are_worth(s, 16, 0xffff, n);
    if s.len() <= 4 && is_written_in(s, 16) {
        lemma_weight_bound(s);
    }
}

proof fn lemma_weight_bound(s: Seq<char>)
    requires
        s.len() <= 4,
        is_written_in(s, 16),
    ensures
        s.len() == 0 ==> weight(s, 16) == 0,
        s.len() == 1 ==> 0 <= weight(s, 16) < 0x10,
        s.len() == 2 ==> 0 <= weight(s, 16) < 0x100,
        s.len() == 3 ==> 0 <= weight(s, 16) < 0x1000,
        s.len() == 4 ==> 0 <= weight(s, 16) < 0x10000,
    decreases s.len(),
{
    if s.len() > 0 {
        assert forall|i: int| 0 <= i < s.drop_last().len() implies crate::text_laws::worth(
            #[trigger] s.drop_last()[i],
        ) < 16 by {
            assert(s.drop_last()[i] == s[i]);
        }
        lemma_weight_bound(s.drop_last());
        assert(crate::text_laws::worth(s[s.len() - 1]) < 16);
    }
}

/// Segments are separated by colons and stand in order: the first one and then the others.
/// One that cannot be read spoils them all.
pub proof fn segments_stand_in_order(a: Seq<char>, b: Seq<char>, dotted: bool)
    requires
        !a.contains(':'),
    ensures
        match (segment(a), segments_of(b, dotted)) {
            (Some(x), Some(r)) => segments_of(a.push(':') + b, dotted) == Some(
                seq![x as u16] + r,
            ),
            _ => segments_of(a.push(':') + b, dotted) is None,
        },
{
    let s = a.push(':') + b;
    assert forall|k: int| 0 <= k < a.len() implies !only(':')(#[trigger] s[k]) by {
        assert(s[k] == a[k]);
        assert(a.contains(a[k]));
    }
    assert(s[a.len() as int] == ':');
    lemma_first_where_at(s, only(':'), a.len() as int);
    assert(s.take(a.len() as int) =~= a);
    assert(s.skip(a.len() as int + 1) =~= b);
}

/// The last segment is one like the others, or an IPv4 address in dotted decimal for two of
/// them, where that is allowed.
pub proof fn last_segment_may_be_dotted(s: Seq<char>, dotted: bool)
    requires
        !s.contains(':'),
    ensures
        segment(s) matches Some(x) ==> segments_of(s, dotted) == Some(seq![x as u16]),
        segment(s) is None && dotted ==> match v4_of_text(s) {
            Some(ip) => segments_of(s, dotted) == Some(
                seq![(ip.a * 256 + ip.b) as u16, (ip.c * 256 + ip.d) as u16],
            ),
            None => segments_of(s, dotted) is None,
        },
        segment(s) is None && !dotted ==> segments_of(s, dotted) is None,
{
    assert forall|k: int| 0 <= k < s.len() implies !only(':')(#[trigger] s[k]) by {
        assert(s.contains(s[k]));
    }
    lemma_first_where_at(s, only(':'), s.len() as int);
}

/// Whether a text has two colons side by side.
pub open spec fn has_double_colon(s: Seq<char>) -> bool {
    exists|k: int| 0 <= k && k + 1 < s.len() && #[trigger] s[k] == ':' && s[k + 1] == ':'
}

proof fn lemma_double_colon(s: Seq<char>)
    ensures
        0 <= double_colon(s) <= s.len(),
        double_colon(s) < s.len() ==> double_colon(s) + 1 < s.len() && s[double_colon(s)] == ':'
            && s[double_colon(s) + 1] == ':',
        forall|k: int|
            0 <= k < double_colon(s) && k + 1 < s.len() ==> !(#[trigger] s[k] == ':' && s[k + 1]
                == ':'),
    decreases s.len(),
{
    if s.len() >= 2 && !(s[0] == ':' && s[1] == ':') {
        let t = s.skip(1);
        lemma_double_colon(t);
        assert forall|k: int| 0 <= k < double_colon(s) && k + 1 < s.len() implies !(
        #[trigger] s[k] == ':' && s[k + 1] == ':') by {
            if k > 0 {
                assert(t[k - 1] == s[k]);
                assert(t[k] == s[k + 1]);
            }
        }
        if double_colon(s) < s.len() {
            let d = double_colon(t);
            assert(t[d] == s[d + 1] && t[d + 1] == s[d + 2]);
        }
    }
}

/// Without a double colon there have to be eight segments, the last two of which may be
/// dotted.
pub proof fn plain_address_has_eight_segments(s: Seq<char>)
    requires
        !has_double_colon(s),
        s.len() > 0,
    ensures
        match segments_of(s, true) {
            Some(g) => if g.len() == 8 {
                v6_of_text(s) matches Some(ip) && ip.segments() == g
            } else {
                v6_of_text(s) is None
            },
            None => v6_of_text(s) is None,
        },
{
    lemma_double_colon(s);
    let d = double_colon(s);
    if d < s.len() {
        assert(s[d] == ':' && s[d + 1] == ':');
        assert(has_double_colon(s));
    }
    match segments_of(s, true) {
        Some(g) => {
            if g.len() == 8 {
                assert(crate::addr::v6_of(g).segments() =~= g);
            }
        },
        None => {},
    }
}

/// A double colon stands for the zeros that are missing, at least one; before it and after
/// it there may be nothing. Dotted decimal is allowed only after it.
pub proof fn double_colon_stands_for_zeros(a: Seq<char>, b: Seq<char>)
    requires
        !has_double_colon(a),
        a.len() > 0 ==> a.last() != ':',
    ensures
        ({
            let front = if a.len() == 0 {
                Some(Seq::<u16>::empty())
            } else {
                segments_of(a, false)
            };
            let back = if b.len() == 0 {
                Some(Seq::<u16>::empty())
            } else {
                segments_of(b, true)
            };
            let read = v6_of_text(a.push(':').push(':') + b);
            match (front, back) {
                (Some(h), Some(t)) => if h.len() + t.len() <= 7 {
                    &&& read is Some
                    &&& read->0.segments().take(h.len() as int) == h
                    &&& read->0.segments().skip(8 - t.len()) == t
                    &&& forall|k: int|
                        h.len() <= k < 8 - t.len() ==> #[trigger] read->0.segments()[k] == 0
                } else {
                    read is None
                },
                _ => read is None,
            }
        }),
{
    let s = a.push(':').push(':') + b;
    lemma_parted(a, b);
    match (side_of(a, false), side_of(b, true)) {
        (Some(h), Some(t)) => {
            if h.len() + t.len() <= 7 {
                lemma_filled(h, t);
            }
        },
        _ => {},
    }
}

proof fn lemma_filled(h: Seq<u16>, t: Seq<u16>)
    requires
        h.len() + t.len() <= 7,
    ensures
        ({
            let g = h + zeros((8 - h.len() - t.len()) as nat) + t;
            let ip = crate::addr::v6_of(g);
            &&& ip.segments() == g
            &&& g.take(h.len() as int) == h
            &&& g.skip(8 - t.len()) == t
            &&& forall|k: int| h.len() <= k < 8 - t.len() ==> #[trigger] g[k] == 0
        }),
{
    let g = h + zeros((8 - h.len() - t.len()) as nat) + t;
    let ip = crate::addr::v6_of(g);
    assert(g.len() == 8);
    assert(ip.segments() =~= g);
    assert(g.take(h.len() as int) =~= h);
    assert(g.skip(8 - t.len()) =~= t);
}

proof fn lemma_parted(a: Seq<char>, b: Seq<char>)
    requires
        !has_double_colon(a),
        a.len() > 0 ==> a.last() != ':',
    ensures
        ({
            let s = a.push(':').push(':') + b;
            &&& double_colon(s) == a.len()
            &&& s.take(a.len() as int) == a
            &&& s.skip(a.len() as int + 2) == b
            &&& s.len() >= a.len() + 2
        }),
{
    let s = a.push(':').push(':') + b;
    let n = a.len() as int;
    lemma_double_colon(s);
    assert(s[n] == ':' && s[n + 1] == ':');
    let d = double_colon(s);
    if d < n {
        assert(s[d] == a[d]);
        if d + 1 < n {
            assert(s[d + 1] == a[d + 1]);
            assert(has_double_colon(a));
        } else {
            assert(a.last() == a[d]);
        }
    }
    assert(d == n);
    assert(s.take(n) =~= a);
    assert(s.skip(n + 2) =~= b);
}

/// The empty text is no address.
pub proof fn empty_text_is_no_address()
    ensures
        ip_of_text(Seq::empty()) is None,
{
    let s = Seq::<char>::empty();
    lemma_first_where(s, only('.'));
    reveal_with_fuel(crate::ip_text::octets, 2);
    assert(v4_of_text(s) is None);
    assert(side_of(s, true) == Some(Seq::<u16>::empty()));
}

// ---------------------------------------------------------------------------
// Writing IPv6 addresses
// ---------------------------------------------------------------------------

/// Segments are written in hexadecimal with colons between them, in order.
pub proof fn segments_are_written_in_order(x: u16, a: Seq<u16>, b: Seq<u16>)
    ensures
        colon_list(seq![x]) == hex(x as nat),
        a.len() > 0 && b.len() > 0 ==> colon_list(a + b) == colon_list(a) + seq![':']
            + colon_list(b),
        colon_list(Seq::empty()).len() == 0,
    decreases a.len(),
{
    if a.len() > 0 && b.len() > 0 {
        let all = a + b;
        assert(all[0] == a[0]);
        if a.len() == 1 {
            assert(all.skip(1) =~= b);
        } else {
            segments_are_written_in_order(x, a.skip(1), b);
            assert(all.skip(1) =~= a.skip(1) + b);
        }
        assert(colon_list(all) =~= colon_list(a) + seq![':'] + colon_list(b));
    }
}

/// Whether so many zeros stand from a place on.
pub open spec fn has_zeros(g: Seq<u16>, i: int, n: int) -> bool {
    &&& 0 <= i
    &&& 0 <= n
    &&& i + n <= g.len()
    &&& forall|k: int| i <= k < i + n ==> #[trigger] g[k] == 0
}

proof fn lemma_run(g: Seq<u16>, i: int)
    requires
        0 <= i <= g.len(),
    ensures
        has_zeros(g, i, zero_run(g, i) as int),
        i + zero_run(g, i) < g.len() ==> g[i + zero_run(g, i)] != 0,
    decreases g.len() - i,
{
    if i < g.len() && g[i] == 0 {
        lemma_run(g, i + 1);
    }
}

proof fn lemma_run_at_least(g: Seq<u16>, i: int, n: int)
    requires
        has_zeros(g, i, n),
    ensures
        zero_run(g, i) >= n,
{
    lemma_run(g, i);
    let r = zero_run(g, i) as int;
    if r < n {
        assert(g[i + r] == 0);
    }
}

proof fn lemma_longest(g: Seq<u16>, n: nat)
    requires
        1 <= n <= g.len(),
    ensures
        ({
            let i = longest_zeros(g, n);
            &&& 0 <= i < n
            &&& forall|k: int| 0 <= k < n ==> #[trigger] zero_run(g, k) <= zero_run(g, i)
            &&& forall|k: int| 0 <= k < i ==> #[trigger] zero_run(g, k) < zero_run(g, i)
        }),
    decreases n,
{
    if n > 1 {
        lemma_longest(g, (n - 1) as nat);
    }
}

/// The first of the longest rows of zeros, if it is of two or more, is written as a double
/// colon between what stands before it and what stands after it.
pub proof fn longest_row_of_zeros_is_left_out(ip: Ipv6Addr, i: int, n: int)
    requires
        !(ip.s0 == 0 && ip.s1 == 0 && ip.s2 == 0 && ip.s3 == 0 && ip.s4 == 0 && ip.s5 == 0xffff),
        n >= 2,
        has_zeros(ip.segments(), i, n),
        forall|k: int, m: int| #[trigger] has_zeros(ip.segments(), k, m) ==> m <= n,
        forall|k: int| 0 <= k < i ==> !#[trigger] has_zeros(ip.segments(), k, n),
    ensures
        v6_text(ip) == colon_list(ip.segments().take(i)) + "::"@ + colon_list(
            ip.segments().skip(i + n),
        ),
{
    let g = ip.segments();
    lemma_longest(g, 8);
    let j = longest_zeros(g, 8);
    lemma_run(g, j);
    lemma_run_at_least(g, i, n);
    lemma_run(g, i);
    assert(has_zeros(g, i, zero_run(g, i) as int));
    assert(zero_run(g, i) == n);
    assert(has_zeros(g, j, zero_run(g, j) as int));
    assert(zero_run(g, j) <= n);
    assert(zero_run(g, i) <= zero_run(g, j));
    if j < i {
        assert(has_zeros(g, j, n));
    } else if i < j {
        assert(zero_run(g, i) < zero_run(g, j));
    }
}

/// Without two zeros side by side all eight segments are written.
pub proof fn single_zeros_are_written(ip: Ipv6Addr)
    requires
        forall|k: int| !#[trigger] has_zeros(ip.segments(), k, 2),
    ensures
        v6_text(ip) == colon_list(ip.segments()),
{
    let g = ip.segments();
    lemma_longest(g, 8);
    let j = longest_zeros(g, 8);
    lemma_run(g, j);
    if zero_run(g, j) > 1 {
        assert(has_zeros(g, j, 2));
    }
    if ip.s0 == 0 && ip.s1 == 0 {
        assert(has_zeros(g, 0, 2));
    }
}

/// An IPv4 address within IPv6 is written in dotted decimal.
pub proof fn mapped_address_is_dotted(ip: Ipv6Addr, v: Ipv4Addr)
    requires
        ip.s0 == 0 && ip.s1 == 0 && ip.s2 == 0 && ip.s3 == 0 && ip.s4 == 0 && ip.s5 == 0xffff,
        ip.s6 == v.a * 256 + v.b,
        ip.s7 == v.c * 256 + v.d,
    ensures
        v6_text(ip) == "::ffff:"@ + v4_text(v),
{
}

} // verus!
