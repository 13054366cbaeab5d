//! What is made of addresses, adapters and routes as the system reports them.

use vstd::arithmetic::power2::pow2;
use vstd::prelude::*;

use crate::adapters::{
    addresses, ascii_lower, bare, default_hops, default_through, described, dhcp_setting, listed,
    mac_text, prefixes, same_guid, same_ignoring_case, v4_only, RawAdapter, RawAddress, RouteEntry,
    AF_INET,
};
use crate::addr::{
    class_c_mask, from_net_order, from_value, half_addr, mask_value, net_order, prefix_gives_a_mask,
    reversed, v6_of, zero_addr, IpAddr, Ipv4Addr, Ipv6Addr,
};
use crate::encoding::{bytes_text, utf16_of, utf16_text};
use crate::number::{dec, hex_byte};
use crate::text::trimmed;
use crate::text_laws::{byte_is_written_as_two_digits, closed_text_is_read_back, worth};

verus! {

// ---------------------------------------------------------------------------
// Addresses
// ---------------------------------------------------------------------------

/// In a field of the system the first octet is the lowest byte and the last one the highest.
pub proof fn octets_stand_in_network_order(raw: u32, ip: Ipv4Addr)
    ensures
        from_net_order(raw) == ip <==> raw == ip.a + 256 * ip.b + 65536 * ip.c + 16777216 * ip.d,
        net_order(ip) == ip.a + 256 * ip.b + 65536 * ip.c + 16777216 * ip.d,
{
    crate::addr::net_order_round_trip(ip);
    crate::addr::net_order_covers_all_fields(raw);
}

/// Turning the octets round puts the last one first, and doing so twice changes nothing.
pub proof fn octets_are_turned_round(ip: Ipv4Addr)
    ensures
        reversed(ip).a == ip.d,
        reversed(ip).b == ip.c,
        reversed(ip).c == ip.b,
        reversed(ip).d == ip.a,
        reversed(reversed(ip)) == ip,
{
}

/// The addresses that the library has by name.
pub proof fn named_addresses()
    ensures
        class_c_mask() == (Ipv4Addr { a: 255, b: 255, c: 255, d: 0 }),
        zero_addr() == (Ipv4Addr { a: 0, b: 0, c: 0, d: 0 }),
        half_addr() == (Ipv4Addr { a: 128, b: 0, c: 0, d: 0 }),
{
}

/// The mask of a prefix length has so many ones before its zeros: as a number it falls short
/// of 2^32 by what the zeros leave free.
pub proof fn mask_has_as_many_ones(p: u8)
    requires
        p <= 32,
    ensures
        ({
            let m = from_value(mask_value(p as nat));
            m.a * 0x100_0000 + m.b * 0x1_0000 + m.c * 0x100 + m.d + pow2((32 - p) as nat)
                == 0x1_0000_0000
        }),
{
    prefix_gives_a_mask(p);
}

/// The segments of an address stand in order, and an address is settled by them.
pub proof fn segments_settle_the_address(ip: Ipv6Addr)
    ensures
        ip.segments().len() == 8,
        ip.segments()[0] == ip.s0,
        ip.segments()[1] == ip.s1,
        ip.segments()[2] == ip.s2,
        ip.segments()[3] == ip.s3,
        ip.segments()[4] == ip.s4,
        ip.segments()[5] == ip.s5,
        ip.segments()[6] == ip.s6,
        ip.segments()[7] == ip.s7,
        v6_of(ip.segments()) == ip,
{
}

// ---------------------------------------------------------------------------
// Adapters
// ---------------------------------------------------------------------------

/// The addresses of two lists put together are those of the one and then those of the other,
/// and so are their prefix lengths.
pub proof fn addresses_are_picked_in_order(a: Seq<RawAddress>, b: Seq<RawAddress>)
    ensures
        addresses(a + b) == addresses(a) + addresses(b),
        prefixes(a + b) == prefixes(a) + prefixes(b),
{
    let p = |x: RawAddress| x.family == AF_INET;
    Seq::filter_distributes_over_add(a, b, p);
    assert(v4_only(a + b) == v4_only(a) + v4_only(b));
    assert(addresses(a + b) =~= addresses(a) + addresses(b));
    assert(prefixes(a + b) =~= prefixes(a) + prefixes(b));
}

/// Of a single address the IPv4 address is picked with its prefix length, and nothing of
/// another family.
pub proof fn only_ipv4_addresses_are_picked(a: RawAddress, ip: Ipv4Addr)
    requires
        a.raw == ip.a + 256 * ip.b + 65536 * ip.c + 16777216 * ip.d,
    ensures
        a.family == 2 ==> addresses(seq![a]) == seq![IpAddr::V4(ip)] && prefixes(seq![a]) == seq![
            a.prefix_len,
        ],
        a.family != 2 ==> addresses(seq![a]).len() == 0 && prefixes(seq![a]).len() == 0,
{
    octets_stand_in_network_order(a.raw, ip);
    let p = |x: RawAddress| x.family == AF_INET;
    reveal(Seq::filter);
    assert(seq![a].drop_last() =~= Seq::<RawAddress>::empty());
    assert(seq![a].drop_last().filter(p) =~= Seq::<RawAddress>::empty());
    assert(seq![a].filter(p) =~= if a.family == 2 {
        seq![a]
    } else {
        seq![]
    });
    if a.family == 2 {
        assert(addresses(seq![a]) =~= seq![IpAddr::V4(ip)]);
        assert(prefixes(seq![a]) =~= seq![a.prefix_len]);
    }
}

/// What clients are told of an adapter is what the system reports of it.
pub proof fn adapter_is_described_as_reported(raw: RawAdapter, id: Seq<char>, name: Seq<char>)
    ensures
        ({
            let a = described(raw, id, name);
            &&& a.id == id
            &&& a.name == name
            &&& a.kind == "if_type="@ + dec(raw.if_type as nat)
            &&& a.mac is None <==> raw.physical@.len() == 0
            &&& a.mac matches Some(m) ==> m == mac_text(raw.physical@)
            &&& a.ipv4 == addresses(raw.unicast@)
            &&& a.ipv4_prefixes == prefixes(raw.unicast@)
            &&& a.gateway == addresses(raw.gateways@)
            &&& a.dns == addresses(raw.dns@)
            &&& a.is_connected == raw.is_up
        }),
{
}

/// A hardware address is written byte by byte, two upper-case hexadecimal digits each, with a
/// hyphen between them.
pub proof fn hardware_address_is_written_byte_by_byte(bytes: Seq<u8>, i: int)
    requires
        0 <= i < bytes.len(),
    ensures
        ({
            let m = mac_text(bytes);
            &&& m.len() == 3 * bytes.len() - 1
            &&& worth(m[3 * i]) == bytes[i] / 16
            &&& worth(m[3 * i + 1]) == bytes[i] % 16
            &&& !('a' <= m[3 * i] <= 'f')
            &&& !('a' <= m[3 * i + 1] <= 'f')
            &&& i + 1 < bytes.len() ==> m[3 * i + 2] == '-'
        }),
    decreases bytes.len(),
{
    reveal_strlit("-");
    let m = mac_text(bytes);
    let h = hex_byte(bytes.last());
    byte_is_written_as_two_digits(bytes.last());
    if bytes.len() > 1 {
        let front = bytes.drop_last();
        let n = mac_text(front);
        hardware_address_is_written_byte_by_byte(
            front,
            if i < front.len() {
                i
            } else {
                0
            },
        );
        assert(m =~= n + "-"@ + h);
        if i < front.len() {
            assert(m[3 * i] == n[3 * i]);
            assert(m[3 * i + 1] == n[3 * i + 1]);
            assert(front[i] == bytes[i]);
            if i + 1 < front.len() {
                assert(m[3 * i + 2] == n[3 * i + 2]);
            } else {
                assert(m[3 * i + 2] == "-"@[0]);
            }
        } else {
            assert(m[3 * i] == h[0]);
            assert(m[3 * i + 1] == h[1]);
        }
    } else {
        assert(m[0] == h[0] && m[1] == h[1]);
    }
}

/// The adapters of two lists put together are those of the one and then those of the other.
pub proof fn adapters_are_listed_in_order(a: Seq<RawAdapter>, b: Seq<RawAdapter>)
    ensures
        listed(a + b) == listed(a) + listed(b),
    decreases b.len(),
{
    if b.len() == 0 {
        assert(a + b =~= a);
        assert(listed(a) + listed(b) =~= listed(a));
    } else {
        adapters_are_listed_in_order(a, b.drop_last());
        assert((a + b).drop_last() =~= a + b.drop_last());
        assert((a + b).last() == b.last());
        assert(listed(a + b) =~= listed(a) + listed(b));
    }
}

/// An adapter is listed under its own identifier and name, unless it is the loopback
/// interface.
pub proof fn only_the_loopback_is_left_out(raw: RawAdapter)
    ensures
        raw.if_type == 24 ==> listed(seq![raw]).len() == 0,
        raw.if_type != 24 ==> {
            let l = listed(seq![raw]);
            &&& l.len() == 1
            &&& l[0] == described(
                raw,
                bytes_text(raw.adapter_name@),
                utf16_text(raw.friendly_name@),
            )
        },
{
    assert(seq![raw].drop_last() =~= Seq::<RawAdapter>::empty());
    reveal_with_fuel(listed, 2);
}

// ---------------------------------------------------------------------------
// Identifiers
// ---------------------------------------------------------------------------

/// Whether two characters are the same letter in either case, or the same character.
pub open spec fn same_letter(x: char, y: char) -> bool {
    ||| x == y
    ||| 'A' <= x <= 'Z' && y as int == x as int + 32
    ||| 'A' <= y <= 'Z' && x as int == y as int + 32
}

proof fn lemma_same_letter(x: char, y: char)
    ensures
        ascii_lower(x) == ascii_lower(y) <==> same_letter(x, y),
{
}

/// Braces around an identifier do not matter.
pub proof fn braces_do_not_matter(a: Seq<char>, b: Seq<char>)
    ensures
        same_guid(seq!['{'] + a, b) == same_guid(a, b),
        same_guid(a.push('}'), b) == same_guid(a, b),
        same_guid(a, b) == same_guid(b, a),
{
    assert((seq!['{'] + a).skip(1) =~= a);
    lemma_bare_closing(a);
    let (x, y) = (bare(a), bare(b));
    if same_guid(a, b) {
        assert forall|i: int| 0 <= i < y.len() implies ascii_lower(#[trigger] y[i])
            == ascii_lower(x[i]) by {
            assert(ascii_lower(x[i]) == ascii_lower(y[i]));
        }
    }
    if same_guid(b, a) {
        assert forall|i: int| 0 <= i < x.len() implies ascii_lower(#[trigger] x[i])
            == ascii_lower(y[i]) by {
            assert(ascii_lower(y[i]) == ascii_lower(x[i]));
        }
    }
}

proof fn lemma_bare_closing(a: Seq<char>)
    ensures
        bare(a.push('}')) == bare(a),
    decreases a.len(),
{
    let s = a.push('}');
    if a.len() > 0 && a[0] == '{' {
        assert(s[0] == '{');
        assert(s.skip(1) =~= a.skip(1).push('}'));
        lemma_bare_closing(a.skip(1));
    } else {
        assert(s.drop_last() =~= a);
        if a.len() > 0 {
            assert(s[0] == a[0]);
        }
    }
}

/// Identifiers without braces name the same interface exactly if they are as long and have
/// the same letters in either case.
pub proof fn case_does_not_matter(a: Seq<char>, b: Seq<char>)
    requires
        a.len() > 0 ==> a[0] != '{' && a.last() != '}',
        b.len() > 0 ==> b[0] != '{' && b.last() != '}',
    ensures
        same_guid(a, b) <==> a.len() == b.len() && forall|i: int|
            0 <= i < a.len() ==> same_letter(#[trigger] a[i], b[i]),
{
    assert forall|i: int| 0 <= i < a.len() && a.len() == b.len() implies (ascii_lower(
        #[trigger] a[i],
    ) == ascii_lower(b[i]) <==> same_letter(a[i], b[i])) by {
        lemma_same_letter(a[i], b[i]);
    }
    assert(bare(a) == a);
    assert(bare(b) == b);
    if same_guid(a, b) {
        assert forall|i: int| 0 <= i < a.len() implies same_letter(#[trigger] a[i], b[i]) by {
            assert(ascii_lower(a[i]) == ascii_lower(b[i]));
        }
    }
    if a.len() == b.len() && (forall|i: int|
        0 <= i < a.len() ==> same_letter(#[trigger] a[i], b[i])) {
        assert(same_ignoring_case(a, b)) by {
            assert forall|i: int| 0 <= i < a.len() implies ascii_lower(#[trigger] a[i])
                == ascii_lower(b[i]) by {
                assert(same_letter(a[i], b[i]));
            }
        }
    }
}

// ---------------------------------------------------------------------------
// Default routes
// ---------------------------------------------------------------------------

/// The routers of two tables put together are those of the one and then those of the other;
/// a default route leaves through the adapter if it does so in one of them.
pub proof fn default_routes_are_read_in_order(a: Seq<RouteEntry>, b: Seq<RouteEntry>, id: Seq<char>)
    ensures
        default_hops(a + b) == default_hops(a) + default_hops(b),
        default_through(a + b, id) == (default_through(a, id) || default_through(b, id)),
    decreases b.len(),
{
    let all = a + b;
    if b.len() == 0 {
        assert(all =~= a);
        assert(default_hops(a) + default_hops(b) =~= default_hops(a));
    } else {
        default_routes_are_read_in_order(a, b.drop_last(), id);
        assert(all.drop_last() =~= a + b.drop_last());
        assert(all.last() == b.last());
        assert(default_hops(all) =~= default_hops(a) + default_hops(b));
    }
    if default_through(a, id) {
        let i = choose|i: int|
            0 <= i < a.len() && crate::adapters::is_default_route((#[trigger] a[i]).row)
                && a[i].guid is Some && same_guid(a[i].guid->0@, id);
        assert(all[i] == a[i]);
    }
    if default_through(b, id) {
        let i = choose|i: int|
            0 <= i < b.len() && crate::adapters::is_default_route((#[trigger] b[i]).row)
                && b[i].guid is Some && same_guid(b[i].guid->0@, id);
        assert(all[a.len() + i] == b[i]);
    }
    if default_through(all, id) {
        let i = choose|i: int|
            0 <= i < all.len() && crate::adapters::is_default_route((#[trigger] all[i]).row)
                && all[i].guid is Some && same_guid(all[i].guid->0@, id);
        if i < a.len() {
            assert(a[i] == all[i]);
        } else {
            assert(b[i - a.len()] == all[i]);
        }
    }
}

/// A route counts as a default route exactly if it leads to 0.0.0.0/0 through a router. Its
/// router is read in network order, and it leaves through the adapter whose identifier its
/// interface has.
pub proof fn default_route_has_a_router(e: RouteEntry, id: Seq<char>, ip: Ipv4Addr)
    requires
        e.row.next_hop == ip.a + 256 * ip.b + 65536 * ip.c + 16777216 * ip.d,
    ensures
        ({
            let counts = e.row.prefix_len == 0 && e.row.destination == 0 && e.row.next_hop != 0;
            &&& counts ==> default_hops(seq![e]) == seq![IpAddr::V4(ip)]
            &&& !counts ==> default_hops(seq![e]).len() == 0
            &&& default_through(seq![e], id) <==> counts && e.guid is Some && same_guid(
                e.guid->0@,
                id,
            )
        }),
{
    octets_stand_in_network_order(e.row.next_hop, ip);
    assert(seq![e].drop_last() =~= Seq::<RouteEntry>::empty());
    reveal_with_fuel(default_hops, 2);
    if e.row.prefix_len == 0 && e.row.destination == 0 && e.row.next_hop != 0 {
        assert(default_hops(seq![e]) =~= seq![IpAddr::V4(ip)]);
    }
    assert(seq![e][0] == e);
}

// ---------------------------------------------------------------------------
// DHCP
// ---------------------------------------------------------------------------

/// DHCP is on if the number is not zero; where there is no number, if the text is "1" but for
/// white space and what follows its closing zero. Nothing is known without either.
pub proof fn dhcp_is_on_as_registered(
    n: u32,
    text: Option<Seq<u16>>,
    s: Seq<char>,
    tail: Seq<u16>,
)
    requires
        !s.contains('\0'),
    ensures
        dhcp_setting(Some(n), text) == Some(n != 0),
        dhcp_setting(None, Some(utf16_of(s).push(0) + tail)) == Some(trimmed(s) == "1"@),
        dhcp_setting(None, None) is None,
{
    closed_text_is_read_back(s, tail);
}

} // verus!
