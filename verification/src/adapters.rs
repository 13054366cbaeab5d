//! Adapters and default routes, from what the system reports.

use vstd::prelude::*;

use crate::addr::{from_net_order, ipv4_from_net_order, IpAddr};
use crate::encoding::{
    bytes_text, decode_bytes, decode_utf16, find_zero, first_zero, utf16_text,
};
use crate::number::{dec, dec_text, hex_byte, push_hex_byte};
use crate::protocol::{adapters_view, find_adapter, AdapterInfo, AdapterView, RouteState};
use crate::route_overlay::RouteRow;
use crate::text::{chars_of, concat2, same_text, trim, trimmed};

verus! {

/// The interface type of the loopback interface.
pub const IF_TYPE_SOFTWARE_LOOPBACK: u32 = 24;

/// The address family of IPv4.
pub const AF_INET: u16 = 2;

/// The first buffer for the list of adapters, in bytes.
pub const FIRST_BUFFER: u32 = 0x4000;

/// The code of a buffer that is too small.
pub const ERROR_BUFFER_OVERFLOW: u32 = 111;

/// What an attempt to list the adapters came to.
#[derive(Debug, Clone, Copy, PartialEq, Eq, Structural)]
pub enum Enumeration {
    /// The buffer holds the list.
    Ready,
    /// The buffer was too small; try again with one of this size.
    Retry(u32),
    /// The system refused, with this code.
    Failed(u32),
}

/// Decides what follows an attempt to list the adapters, by the code and the size that
/// the system returned.
pub fn after_enumeration(code: u32, size: u32) -> (next: Enumeration)
    requires
        code == ERROR_BUFFER_OVERFLOW ==> size <= 0x7fff_ffff,
    ensures
        match next {
            Enumeration::Ready => code == 0,
            Enumeration::Retry(n) => code == ERROR_BUFFER_OVERFLOW && n == 2 * size,
            Enumeration::Failed(c) => code != 0 && code != ERROR_BUFFER_OVERFLOW && c == code,
        },
{
    if code == ERROR_BUFFER_OVERFLOW {
        Enumeration::Retry(size * 2)
    } else if code != 0 {
        Enumeration::Failed(code)
    } else {
        Enumeration::Ready
    }
}

/// An address as the system reports it; the address is in network order.
#[derive(Debug, Clone, Copy, PartialEq, Eq, Structural)]
pub struct RawAddress {
    pub family: u16,
    pub raw: u32,
    pub prefix_len: u8,
}

/// An adapter as the system reports it.
#[derive(Debug)]
pub struct RawAdapter {
    pub if_type: u32,
    /// The identifier, in the bytes before its closing zero.
    pub adapter_name: Vec<u8>,
    /// The name that the system shows, in the units before its closing zero.
    pub friendly_name: Vec<u16>,
    /// The bytes of the hardware address.
    pub physical: Vec<u8>,
    pub unicast: Vec<RawAddress>,
    pub dns: Vec<RawAddress>,
    pub gateways: Vec<RawAddress>,
    pub is_up: bool,
}

/// The hardware address in the usual form, such as "00-1A-2B".
pub open spec fn mac_text(bytes: Seq<u8>) -> Seq<char>
    decreases bytes.len(),
{
    if bytes.len() == 0 {
        seq![]
    } else if bytes.len() == 1 {
        hex_byte(bytes[0])
    } else {
        mac_text(bytes.drop_last()) + "-"@ + hex_byte(bytes.last())
    }
}

/// The IPv4 addresses among the reported ones, in order.
pub open spec fn v4_only(list: Seq<RawAddress>) -> Seq<RawAddress> {
    list.filter(|a: RawAddress| a.family == AF_INET)
}

/// The addresses of reported ones.
pub open spec fn addresses(list: Seq<RawAddress>) -> Seq<IpAddr> {
    v4_only(list).map_values(|a: RawAddress| IpAddr::V4(from_net_order(a.raw)))
}

/// The prefix lengths of reported addresses.
pub open spec fn prefixes(list: Seq<RawAddress>) -> Seq<u8> {
    v4_only(list).map_values(|a: RawAddress| a.prefix_len)
}

/// What clients are told of an adapter.
pub open spec fn described(raw: RawAdapter, id: Seq<char>, name: Seq<char>) -> AdapterView {
    AdapterView {
        id,
        name,
        kind: "if_type="@ + dec(raw.if_type as nat),
        mac: if raw.physical@.len() == 0 {
            None
        } else {
            Some(mac_text(raw.physical@))
        },
        ipv4: addresses(raw.unicast@),
        ipv4_prefixes: prefixes(raw.unicast@),
        gateway: addresses(raw.gateways@),
        dns: addresses(raw.dns@),
        is_connected: raw.is_up,
    }
}

/// What clients are told of the adapters: the loopback interface is left out.
pub open spec fn listed(raws: Seq<RawAdapter>) -> Seq<AdapterView>
    decreases raws.len(),
{
    if raws.len() == 0 {
        seq![]
    } else {
        let front = listed(raws.drop_last());
        let raw = raws.last();
        if raw.if_type == IF_TYPE_SOFTWARE_LOOPBACK {
            front
        } else {
            front.push(
                described(raw, bytes_text(raw.adapter_name@), utf16_text(raw.friendly_name@)),
            )
        }
    }
}

fn write_mac(bytes: &Vec<u8>) -> (out: String)
    ensures
        out@ == mac_text(bytes@),
{
    let mut out = String::new();
    let mut i: usize = 0;
    while i < bytes.len()
        invariant
            i <= bytes@.len(),
            out@ == mac_text(bytes@.take(i as int)),
        decreases bytes@.len() - i,
    {
        assert(bytes@.take(i + 1).drop_last() =~= bytes@.take(i as int));
        let ghost before = out@;
        if i > 0 {
            out.append("-");
        }
        push_hex_byte(&mut out, bytes[i]);
        proof {
            if i == 0 {
                assert(out@ =~= hex_byte(bytes@[0]));
            } else {
                assert(out@ =~= before + "-"@ + hex_byte(bytes@[i as int]));
            }
        }
        i = i + 1;
    }
    assert(bytes@.take(bytes@.len() as int) =~= bytes@);
    out
}

fn read_addresses(list: &Vec<RawAddress>) -> (out: (Vec<IpAddr>, Vec<u8>))
    ensures
        out.0@ == addresses(list@),
        out.1@ == prefixes(list@),
{
    let mut ips: Vec<IpAddr> = Vec::new();
    let mut lens: Vec<u8> = Vec::new();
    let mut i: usize = 0;
    let ghost p = |a: RawAddress| a.family == AF_INET;
    proof {
        assert(list@.take(0).filter(p) =~= Seq::empty()) by {
            reveal(Seq::filter);
        }
        assert(ips@ =~= addresses(list@.take(0)));
        assert(lens@ =~= prefixes(list@.take(0)));
    }
    while i < list.len()
        invariant
            i <= list@.len(),
            p == (|a: RawAddress| a.family == AF_INET),
            ips@ == addresses(list@.take(i as int)),
            lens@ == prefixes(list@.take(i as int)),
        decreases list@.len() - i,
    {
        let a = list[i];
        proof {
            let t = list@.take(i + 1);
            assert(t.drop_last() =~= list@.take(i as int));
            assert(t.filter(p) == if p(t.last()) {
                t.drop_last().filter(p).push(t.last())
            } else {
                t.drop_last().filter(p)
            }) by {
                reveal(Seq::filter);
            }
        }
        let ghost before = (ips@, lens@);
        if a.family == AF_INET {
            ips.push(IpAddr::V4(ipv4_from_net_order(a.raw)));
            lens.push(a.prefix_len);
        }
        i = i + 1;
        assert(ips@ =~= addresses(list@.take(i as int)));
        assert(lens@ =~= prefixes(list@.take(i as int)));
    }
    assert(list@.take(list@.len() as int) =~= list@);
    (ips, lens)
}

/// What clients are told of an adapter with the given identifier and name.
pub fn describe_adapter(raw: &RawAdapter, id: String, name: String) -> (a: AdapterInfo)
    ensures
        a@ == described(*raw, id@, name@),
{
    let number = dec_text(raw.if_type as u64);
    let kind = concat2("if_type=", number.as_str());
    let mac = if raw.physical.len() == 0 {
        None
    } else {
        Some(write_mac(&raw.physical))
    };
    let (ipv4, ipv4_prefixes) = read_addresses(&raw.unicast);
    let (gateway, _) = read_addresses(&raw.gateways);
    let (dns, _) = read_addresses(&raw.dns);
    AdapterInfo {
        id,
        name,
        kind,
        mac,
        ipv4,
        ipv4_prefixes,
        gateway,
        dns,
        is_connected: raw.is_up,
    }
}

/// Lists the adapters for clients; the loopback interface is left out.
pub fn list_adapters(raws: &Vec<RawAdapter>) -> (out: Vec<AdapterInfo>)
    ensures
        adapters_view(out@) == listed(raws@),
{
    let mut out: Vec<AdapterInfo> = Vec::new();
    let mut i: usize = 0;
    assert(adapters_view(out@) =~= listed(raws@.take(0)));
    while i < raws.len()
        invariant
            i <= raws@.len(),
            adapters_view(out@) == listed(raws@.take(i as int)),
        decreases raws@.len() - i,
    {
        assert(raws@.take(i + 1).drop_last() =~= raws@.take(i as int));
        let raw = &raws[i];
        if raw.if_type != IF_TYPE_SOFTWARE_LOOPBACK {
            let id = decode_bytes(&raw.adapter_name);
            let name = decode_utf16(&raw.friendly_name, raw.friendly_name.len());
            assert(raw.friendly_name@.take(raw.friendly_name@.len() as int)
                =~= raw.friendly_name@);
            let ghost before = out@;
            let a = describe_adapter(raw, id, name);
            out.push(a);
            assert(adapters_view(out@) =~= adapters_view(before).push(a@));
        }
        i = i + 1;
    }
    assert(raws@.take(raws@.len() as int) =~= raws@);
    out
}

/// Every address of an adapter has its prefix length.
pub proof fn each_address_has_a_prefix(raw: RawAdapter, id: Seq<char>, name: Seq<char>)
    ensures
        described(raw, id, name).ipv4.len() == described(raw, id, name).ipv4_prefixes.len(),
{
}

/// Where the first adapter with the id stands.
pub fn position_of(list: &Vec<AdapterInfo>, id: &str) -> (r: Option<usize>)
    ensures
        match r {
            Some(i) => {
                &&& i < list@.len()
                &&& find_adapter(adapters_view(list@), id@) == Some(list@[i as int]@)
                &&& list@[i as int].id@ == id@
                &&& forall|k: int| 0 <= k < i ==> (#[trigger] list@[k]).id@ != id@
            },
            None => {
                &&& find_adapter(adapters_view(list@), id@) is None
                &&& forall|k: int| 0 <= k < list@.len() ==> (#[trigger] list@[k]).id@ != id@
            },
        },
{
    let ghost all = adapters_view(list@);
    let mut i: usize = 0;
    assert(all.skip(0) =~= all);
    while i < list.len()
        invariant
            i <= list@.len(),
            all == adapters_view(list@),
            find_adapter(all, id@) == find_adapter(all.skip(i as int), id@),
            forall|k: int| 0 <= k < i ==> (#[trigger] list@[k]).id@ != id@,
        decreases list@.len() - i,
    {
        assert(all.skip(i as int)[0] == list@[i as int]@);
        if same_text(list[i].id.as_str(), id) {
            return Some(i);
        }
        assert(all.skip(i as int).skip(1) =~= all.skip(i + 1));
        i = i + 1;
    }
    None
}

// ---------------------------------------------------------------------------
// Default routes
// ---------------------------------------------------------------------------

/// A route with the identifier of its interface, where that is known.
#[derive(Debug)]
pub struct RouteEntry {
    pub row: RouteRow,
    pub guid: Option<String>,
}

/// A lower-case letter for an upper-case one, as far as ASCII goes.
pub open spec fn ascii_lower(c: char) -> int {
    if 65 <= c as int <= 90 {
        c as int + 32
    } else {
        c as int
    }
}

/// Whether two texts are the same but for the case of ASCII letters.
pub open spec fn same_ignoring_case(a: Seq<char>, b: Seq<char>) -> bool {
    &&& a.len() == b.len()
    &&& forall|i: int| 0 <= i < a.len() ==> ascii_lower(#[trigger] a[i]) == ascii_lower(b[i])
}

/// The identifier without the braces around it.
pub open spec fn bare(s: Seq<char>) -> Seq<char>
    decreases s.len(),
{
    if s.len() > 0 && s[0] == '{' {
        bare(s.skip(1))
    } else if s.len() > 0 && s.last() == '}' {
        bare(s.drop_last())
    } else {
        s
    }
}

/// Whether two identifiers name the same interface.
pub open spec fn same_guid(a: Seq<char>, b: Seq<char>) -> bool {
    same_ignoring_case(bare(a), bare(b))
}

fn lower_code(c: char) -> (n: u32)
    ensures
        n == ascii_lower(c),
{
    let n = crate::text::code_of(c);
    if n >= 65 && n <= 90 {
        n + 32
    } else {
        n
    }
}

fn bare_range(v: &Vec<char>) -> (r: (usize, usize))
    ensures
        r.0 <= r.1 <= v@.len(),
        v@.subrange(r.0 as int, r.1 as int) == bare(v@),
{
    let mut lo: usize = 0;
    let mut hi: usize = v.len();
    assert(v@.subrange(0, v@.len() as int) =~= v@);
    loop
        invariant
            lo <= hi <= v@.len(),
            bare(v@) == bare(v@.subrange(lo as int, hi as int)),
        decreases hi - lo,
    {
        let ghost s = v@.subrange(lo as int, hi as int);
        if lo < hi && v[lo] == '{' {
            lo = lo + 1;
            assert(s.skip(1) =~= v@.subrange(lo as int, hi as int));
        } else if lo < hi && v[hi - 1] == '}' {
            hi = hi - 1;
            assert(s.drop_last() =~= v@.subrange(lo as int, hi as int));
        } else {
            return (lo, hi);
        }
    }
}

/// Whether two identifiers name the same interface, with or without braces and in
/// either case.
pub fn is_same_guid(a: &str, b: &str) -> (r: bool)
    ensures
        r == same_guid(a@, b@),
{
    let x = chars_of(a);
    let y = chars_of(b);
    let (xl, xh) = bare_range(&x);
    let (yl, yh) = bare_range(&y);
    let ghost s = bare(a@);
    let ghost t = bare(b@);
    if xh - xl != yh - yl {
        return false;
    }
    let n: usize = xh - xl;
    let mut i: usize = 0;
    while i < n
        invariant
            i <= n,
            n == xh - xl,
            n == yh - yl,
            xl <= xh <= x@.len(),
            yl <= yh <= y@.len(),
            s == bare(a@),
            t == bare(b@),
            s == x@.subrange(xl as int, xh as int),
            t == y@.subrange(yl as int, yh as int),
            forall|k: int| 0 <= k < i ==> ascii_lower(#[trigger] s[k]) == ascii_lower(t[k]),
        decreases n - i,
    {
        assert(s[i as int] == x@[xl + i]);
        assert(t[i as int] == y@[yl + i]);
        if lower_code(x[xl + i]) != lower_code(y[yl + i]) {
            return false;
        }
        i = i + 1;
    }
    true
}

/// Whether a route leads everywhere through a router.
pub open spec fn is_default_route(row: RouteRow) -> bool {
    row.prefix_len == 0 && row.destination == 0 && row.next_hop != 0
}

/// The routers of the default routes, in the order of the table.
pub open spec fn default_hops(rows: Seq<RouteEntry>) -> Seq<IpAddr>
    decreases rows.len(),
{
    if rows.len() == 0 {
        seq![]
    } else {
        let front = default_hops(rows.drop_last());
        if is_default_route(rows.last().row) {
            front.push(IpAddr::V4(from_net_order(rows.last().row.next_hop)))
        } else {
            front
        }
    }
}

/// Whether some default route leaves through the adapter.
pub open spec fn default_through(rows: Seq<RouteEntry>, adapter_id: Seq<char>) -> bool {
    exists|i: int|
        0 <= i < rows.len() && is_default_route((#[trigger] rows[i]).row) && rows[i].guid is Some
            && same_guid(rows[i].guid->0@, adapter_id)
}

/// The default routes: their routers, and whether one leaves through the adapter.
pub fn current_route_state(rows: &Vec<RouteEntry>, adapter_id: &str) -> (state: RouteState)
    ensures
        state.default_next_hops@ == default_hops(rows@),
        state.default_via_bypass == default_through(rows@, adapter_id@),
{
    let mut hops: Vec<IpAddr> = Vec::new();
    let mut through: bool = false;
    let mut i: usize = 0;
    while i < rows.len()
        invariant
            i <= rows@.len(),
            hops@ == default_hops(rows@.take(i as int)),
            through == default_through(rows@.take(i as int), adapter_id@),
        decreases rows@.len() - i,
    {
        let ghost front = rows@.take(i as int);
        let ghost more = rows@.take(i + 1);
        assert(more.drop_last() =~= front);
        let ghost was = through;
        let entry = &rows[i];
        if entry.row.prefix_len == 0 && entry.row.destination == 0 && entry.row.next_hop != 0 {
            hops.push(IpAddr::V4(ipv4_from_net_order(entry.row.next_hop)));
            match &entry.guid {
                Some(g) => {
                    if is_same_guid(g.as_str(), adapter_id) {
                        through = true;
                    }
                },
                None => {},
            }
        }
        proof {
            if through && !was {
                assert(more[i as int] == *entry);
                assert(default_through(more, adapter_id@));
            }
            if was {
                let k = choose|k: int|
                    0 <= k < front.len() && is_default_route((#[trigger] front[k]).row)
                        && front[k].guid is Some && same_guid(front[k].guid->0@, adapter_id@);
                assert(more[k] == front[k]);
            }
            if default_through(more, adapter_id@) && !was {
                let k = choose|k: int|
                    0 <= k < more.len() && is_default_route((#[trigger] more[k]).row)
                        && more[k].guid is Some && same_guid(more[k].guid->0@, adapter_id@);
                if k < i {
                    assert(front[k] == more[k]);
                }
                assert(k == i);
            }
        }
        i = i + 1;
    }
    assert(rows@.take(rows@.len() as int) =~= rows@);
    RouteState { default_via_bypass: through, default_next_hops: hops }
}

// ---------------------------------------------------------------------------
// DHCP
// ---------------------------------------------------------------------------

/// The registry key of an adapter's address settings.
pub fn dhcp_subkey(adapter_id: &str) -> (key: String)
    ensures
        key@ == r"SYSTEM\CurrentControlSet\Services\Tcpip\Parameters\Interfaces\"@ + adapter_id@,
{
    concat2(r"SYSTEM\CurrentControlSet\Services\Tcpip\Parameters\Interfaces\", adapter_id)
}

/// Whether DHCP is on, by the value in the registry: a number, or else a text.
pub open spec fn dhcp_setting(number: Option<u32>, text: Option<Seq<u16>>) -> Option<bool> {
    match (number, text) {
        (Some(n), _) => Some(n != 0),
        (None, Some(u)) => Some(trimmed(utf16_text(u.take(first_zero(u)))) == "1"@),
        (None, None) => None,
    }
}

/// Reads whether DHCP is on, by the value in the registry: usually a number, with some
/// drivers a text. Nothing is known where neither can be read.
pub fn query_dhcp_enabled(number: Option<u32>, text: &Option<Vec<u16>>) -> (r: Option<bool>)
    ensures
        r == dhcp_setting(
            number,
            match *text {
                Some(u) => Some(u@),
                None => None,
            },
        ),
{
    match number {
        Some(n) => Some(n != 0),
        None => match text {
            Some(u) => {
                let len = find_zero(u);
                let s = decode_utf16(u, len);
                let t = trim(s.as_str());
                Some(same_text(t.as_str(), "1"))
            },
            None => None,
        },
    }
}

} // verus!
