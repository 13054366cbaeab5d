//! Which routes the overlay makes, finds and takes away, and what is reported of it.

use vstd::prelude::*;

use crate::addr::{from_net_order, reversed, IpAddr, Ipv4Addr};
use crate::error::ErrorView;
use crate::ip_text::{ipv4_text_reads_back, lemma_v4_text_chars, v4_of_text, v4_text};
use crate::net_laws::octets_stand_in_network_order;
use crate::number::{byte_number, dec, hex};
use crate::protocol::{HandleRouteView, HandleView};
use crate::route_laws::scan_lists_exactly_our_rows;
use crate::route_overlay::{
    action_view, covers, create_error, delete_error, existing_handle, extra_rows, first_covering,
    first_failure, half_active, handle_active, is_overlay, main_row, overlay_of, overlay_positions,
    overlay_rows, prefix_of, row_of, successes, Attempt, Half, OverlayAction, OverlayActionView,
    OverlayEnable, OverlayPhase, OverlayReply, OverlayRow, RouteRow,
};
use crate::text_laws::{
    byte_may_have_a_plus_sign, decimal_writes_the_number, text_is_cut_at_the_first,
};

verus! {

/// An address as a number whose lowest byte is the first octet.
pub open spec fn octets(ip: Ipv4Addr) -> int {
    ip.a + 256 * ip.b + 65536 * ip.c + 16777216 * ip.d
}

/// Whether a row leads to the network through the router on the interface, and never
/// expires.
pub open spec fn leads(
    row: RouteRow,
    dest: Ipv4Addr,
    len: int,
    router: Ipv4Addr,
    if_index: u32,
    if_luid: u64,
    metric: u32,
) -> bool {
    &&& row.if_index == if_index
    &&& row.if_luid == if_luid
    &&& row.destination == octets(dest)
    &&& row.prefix_len == len
    &&& row.next_hop == octets(router)
    &&& row.metric == metric
    &&& row.protocol == 3
    &&& row.valid_lifetime == 0xffff_ffff
    &&& row.preferred_lifetime == 0xffff_ffff
}

/// The half of the addresses that begins with 0.0.0.0 or with 128.0.0.0.
pub open spec fn half_begins(half: Half) -> Ipv4Addr {
    match half {
        Half::Lower => Ipv4Addr { a: 0, b: 0, c: 0, d: 0 },
        Half::Upper => Ipv4Addr { a: 128, b: 0, c: 0, d: 0 },
    }
}

/// Whether a row is the one that the machine makes for a half.
pub open spec fn is_route_of(row: RouteRow, m: OverlayEnable, half: Half) -> bool {
    leads(row, half_begins(half), 1, m.bypass_ip, m.if_index, m.if_luid, m.metric)
}

/// Whether a handle stands for both halves through the router.
pub open spec fn stands_for(
    h: HandleView,
    router: Ipv4Addr,
    main_index: u32,
    main_luid: u64,
    extra_index: u32,
    extra_luid: u64,
) -> bool {
    &&& h.mode is RouteOverlay
    &&& h.if_index == Some(main_index)
    &&& h.if_luid == Some(main_luid)
    &&& h.destination_prefix == Some("0.0.0.0/1"@)
    &&& h.next_hop == Some(IpAddr::V4(router))
    &&& h.adapter_id is None
    &&& h.extra_routes.len() == 1
    &&& h.extra_routes[0].destination_prefix == "128.0.0.0/1"@
    &&& h.extra_routes[0].if_index == extra_index
    &&& h.extra_routes[0].if_luid == extra_luid
}

/// A row leads where it is told to, was made by network management, and never expires.
pub proof fn row_leads_where_it_is_told(
    if_luid: u64,
    if_index: u32,
    dest: Ipv4Addr,
    len: u8,
    router: Ipv4Addr,
    metric: u32,
)
    ensures
        leads(
            row_of(if_luid, if_index, dest, len, router, metric),
            dest,
            len as int,
            router,
            if_index,
            if_luid,
            metric,
        ),
{
}

// ---------------------------------------------------------------------------
// Enabling
// ---------------------------------------------------------------------------

/// The machine's two routes are the two halves, and its handle stands for them.
pub proof fn machine_makes_both_halves(m: OverlayEnable)
    ensures
        is_route_of(m.row(Half::Lower), m, Half::Lower),
        is_route_of(m.row(Half::Upper), m, Half::Upper),
        stands_for(m.handle(), m.bypass_ip, m.if_index, m.if_luid, m.if_index, m.if_luid),
{
}

/// Once the interface is known, what an earlier run has left is removed, however that goes,
/// and then the lower half is created on that interface.
pub proof fn enabling_begins_clean(m: OverlayEnable, if_index: u32, if_luid: u64, code: u32)
    requires
        m.phase is Resolving,
    ensures
        ({
            let a = m.stepped(OverlayReply::Interface(if_index, if_luid));
            let b = a.0.stepped(OverlayReply::Code(code));
            &&& a.1 == Some(OverlayActionView::Cleanup(m.bypass_ip))
            &&& b.0 == (OverlayEnable {
                if_index,
                if_luid,
                phase: OverlayPhase::Adding(Half::Lower, Attempt::First),
                ..m
            })
            &&& b.1 matches Some(OverlayActionView::Create(row)) && is_route_of(
                row,
                b.0,
                Half::Lower,
            )
        }),
{
}

/// Where nothing reaches the router, enabling ends with an error that names it, and nothing
/// was touched.
pub proof fn unreachable_router_is_reported(m: OverlayEnable, code: u32)
    requires
        m.phase is Resolving,
    ensures
        m.stepped(OverlayReply::Code(code)) == (
            OverlayEnable { phase: OverlayPhase::Finished, ..m },
            Some(
                OverlayActionView::Finish(
                    Err(
                        ErrorView::Network(
                            "找不到到 "@ + v4_text(m.bypass_ip)
                                + " 的路由（旁路由地址不可达？）: 0x"@ + hex(code as nat),
                        ),
                    ),
                ),
            ),
        ),
{
}

/// A half that was created, at once or at the second attempt, leads on: after the lower one
/// the upper one is created, and after that enabling has succeeded with the handle of both.
pub proof fn created_half_leads_on(m: OverlayEnable, half: Half, attempt: Attempt)
    requires
        m.phase == OverlayPhase::Adding(half, attempt),
        attempt is First || attempt is Second,
    ensures
        ({
            let (next, action) = m.stepped(OverlayReply::Code(0));
            &&& half is Lower ==> {
                &&& next == (OverlayEnable {
                    phase: OverlayPhase::Adding(Half::Upper, Attempt::First),
                    ..m
                })
                &&& action matches Some(OverlayActionView::Create(row)) && is_route_of(
                    row,
                    m,
                    Half::Upper,
                )
            }
            &&& half is Upper ==> {
                &&& next.phase is Finished
                &&& action matches Some(OverlayActionView::Finish(Ok(h))) && stands_for(
                    h,
                    m.bypass_ip,
                    m.if_index,
                    m.if_luid,
                    m.if_index,
                    m.if_luid,
                )
            }
        }),
{
}

/// A half that cannot be created is deleted, whatever stands under its name, and created once
/// more, however the deletion goes. Where that fails too, everything through the router is
/// removed, and enabling ends with the code of the second attempt.
pub proof fn failed_half_is_tried_once_more(
    m: OverlayEnable,
    half: Half,
    first: u32,
    gone: u32,
    second: u32,
    removed: u32,
)
    requires
        m.phase == OverlayPhase::Adding(half, Attempt::First),
        first != 0,
        second != 0,
    ensures
        ({
            let a = m.stepped(OverlayReply::Code(first));
            let b = a.0.stepped(OverlayReply::Code(gone));
            let c = b.0.stepped(OverlayReply::Code(second));
            let d = c.0.stepped(OverlayReply::Code(removed));
            &&& a.1 matches Some(OverlayActionView::Delete(row)) && is_route_of(row, m, half)
            &&& b.1 matches Some(OverlayActionView::Create(row)) && is_route_of(row, m, half)
            &&& b.0 == (OverlayEnable { phase: OverlayPhase::Adding(half, Attempt::Second), ..m })
            &&& c.1 == Some(OverlayActionView::Cleanup(m.bypass_ip))
            &&& d.0.phase is Finished
            &&& d.1 == Some(
                OverlayActionView::Finish(
                    Err(
                        ErrorView::Network(
                            "CreateIpForwardEntry2 失败: 0x"@ + hex(second as nat)
                                + "（Windows 错误码 "@ + dec(second as nat) + "）"@,
                        ),
                    ),
                ),
            )
        }),
{
}

/// An answer that does not suit what was asked changes nothing.
pub proof fn unasked_answers_are_ignored(m: OverlayEnable, reply: OverlayReply)
    requires
        m.phase is Finished || (reply is Interface && !(m.phase is Resolving)),
    ensures
        m.stepped(reply) == (m, None::<OverlayActionView>),
{
}

/// The errors tell the code, in hexadecimal, and that of a creation in decimal, too.
pub proof fn route_errors_tell_the_code(code: u32)
    ensures
        create_error(code) == ErrorView::Network(
            "CreateIpForwardEntry2 失败: 0x"@ + hex(code as nat) + "（Windows 错误码 "@ + dec(
                code as nat,
            ) + "）"@,
        ),
        delete_error(code) == ErrorView::Network(
            "DeleteIpForwardEntry2 失败: 0x"@ + hex(code as nat),
        ),
{
}

/// What the host is asked for is what was decided.
pub proof fn host_is_asked_what_was_decided(a: OverlayAction)
    ensures
        action_view(None) is None,
        action_view(Some(a)) == Some(a@),
        a matches OverlayAction::ResolveInterface(ip) ==> a@
            == OverlayActionView::ResolveInterface(ip),
        a matches OverlayAction::Cleanup(ip) ==> a@ == OverlayActionView::Cleanup(ip),
        a matches OverlayAction::Create(row) ==> a@ == OverlayActionView::Create(row),
        a matches OverlayAction::Delete(row) ==> a@ == OverlayActionView::Delete(row),
        a matches OverlayAction::Finish(Ok(h)) ==> a@ == OverlayActionView::Finish(Ok(h@)),
        a matches OverlayAction::Finish(Err(e)) ==> a@ == OverlayActionView::Finish(Err(e@)),
{
}

// ---------------------------------------------------------------------------
// Disabling
// ---------------------------------------------------------------------------

/// A prefix is an address, a slash and a length that is a byte. Nothing else is one.
pub proof fn prefix_is_address_and_length(a: Seq<char>, l: Seq<char>)
    requires
        !a.contains('/'),
    ensures
        match (v4_of_text(a), byte_number(l)) {
            (Some(ip), Some(n)) => prefix_of(a.push('/') + l) == Some((ip, n as u8)),
            _ => prefix_of(a.push('/') + l) is None,
        },
        prefix_of(a) is None,
{
    text_is_cut_at_the_first(a, '/', l);
}

/// A prefix that was written is the one that is read.
pub proof fn prefix_reads_back(ip: Ipv4Addr, n: u8)
    ensures
        prefix_of(v4_text(ip).push('/') + dec(n as nat)) == Some((ip, n)),
{
    let a = v4_text(ip);
    ipv4_text_reads_back(ip);
    lemma_v4_text_chars(ip);
    assert(!a.contains('/')) by {
        if a.contains('/') {
            let k = choose|k: int| 0 <= k < a.len() && a[k] == '/';
            assert(a[k] == '/');
        }
    }
    decimal_writes_the_number(n as nat);
    let d = dec(n as nat);
    assert(d[0] != '+');
    assert(crate::text_laws::is_written_in(d, 10)) by {
        assert forall|i: int| 0 <= i < d.len() implies crate::text_laws::worth(#[trigger] d[i])
            < 10 by {
            assert('0' <= d[i] <= '9');
        }
    }
    byte_may_have_a_plus_sign(d, n as nat);
    prefix_is_address_and_length(a, d);
}

/// The main route of a handle is the one that it names, and 0.0.0.0/1 where it names none
/// that can be read.
pub proof fn main_route_is_the_one_named(h: HandleView, luid: u64, router: Ipv4Addr)
    ensures
        ({
            let row = main_row(h, luid, router);
            let named = match h.destination_prefix {
                Some(p) => prefix_of(p),
                None => None,
            };
            let index = match h.if_index {
                Some(i) => i,
                None => 0u32,
            };
            &&& named matches Some(d) ==> leads(row, d.0, d.1 as int, router, index, luid, 0)
            &&& named is None ==> leads(
                row,
                Ipv4Addr { a: 0, b: 0, c: 0, d: 0 },
                1,
                router,
                index,
                luid,
                0,
            )
        }),
{
}

/// The further routes of a handle are taken one by one and in order.
pub proof fn further_routes_are_taken_in_order(
    a: Seq<HandleRouteView>,
    b: Seq<HandleRouteView>,
    router: Ipv4Addr,
)
    ensures
        extra_rows(a + b, router) == extra_rows(a, router) + extra_rows(b, router),
    decreases b.len(),
{
    if b.len() == 0 {
        assert(a + b =~= a);
        assert(extra_rows(a, router) + extra_rows(b, router) =~= extra_rows(a, router));
    } else {
        further_routes_are_taken_in_order(a, b.drop_last(), router);
        assert((a + b).drop_last() =~= a + b.drop_last());
        assert((a + b).last() == b.last());
        assert(extra_rows(a + b, router) =~= extra_rows(a, router) + extra_rows(b, router));
    }
}

/// A further route is the one that it names, and is passed over where that cannot be read.
pub proof fn further_route_is_the_one_named(r: HandleRouteView, router: Ipv4Addr)
    ensures
        ({
            let rows = extra_rows(seq![r], router);
            &&& prefix_of(r.destination_prefix) is None ==> rows.len() == 0
            &&& prefix_of(r.destination_prefix) matches Some(d) ==> rows.len() == 1 && leads(
                rows[0],
                d.0,
                d.1 as int,
                router,
                r.if_index,
                r.if_luid,
                0,
            )
        }),
{
    assert(seq![r].drop_last() =~= Seq::<HandleRouteView>::empty());
    reveal_with_fuel(extra_rows, 2);
}

// ---------------------------------------------------------------------------
// Cleaning up
// ---------------------------------------------------------------------------

/// Deletions that went well are counted, each for itself.
pub proof fn successes_are_counted(a: Seq<u32>, b: Seq<u32>, code: u32)
    ensures
        successes(a + b) == successes(a) + successes(b),
        successes(seq![code]) == if code == 0 {
            1nat
        } else {
            0nat
        },
    decreases b.len(),
{
    assert(seq![code].drop_last() =~= Seq::<u32>::empty());
    reveal_with_fuel(successes, 2);
    if b.len() == 0 {
        assert(a + b =~= a);
    } else {
        successes_are_counted(a, b.drop_last(), code);
        assert((a + b).drop_last() =~= a + b.drop_last());
        assert((a + b).last() == b.last());
    }
}

/// The first code that is not zero is the answer, and zero where there is none.
pub proof fn first_failure_is_the_answer(good: Seq<u32>, code: u32, rest: Seq<u32>)
    requires
        forall|k: int| 0 <= k < good.len() ==> #[trigger] good[k] == 0,
        code != 0,
    ensures
        first_failure(good.push(code) + rest) == code,
        first_failure(good) == 0,
    decreases good.len(),
{
    let all = good.push(code) + rest;
    if good.len() > 0 {
        assert(all[0] == good[0]);
        assert(all.skip(1) =~= good.skip(1).push(code) + rest);
        assert forall|k: int| 0 <= k < good.skip(1).len() implies #[trigger] good.skip(1)[k]
            == 0 by {
            assert(good.skip(1)[k] == good[k + 1]);
        }
        first_failure_is_the_answer(good.skip(1), code, rest);
    } else {
        assert(all[0] == code);
    }
}

// ---------------------------------------------------------------------------
// Finding routes
// ---------------------------------------------------------------------------

/// Whether a row is ours through the router: of length zero or one, made by network
/// management, with the router's octets in either order.
pub open spec fn is_ours(row: RouteRow, router: Ipv4Addr) -> bool {
    &&& row.prefix_len <= 1
    &&& row.protocol == 3
    &&& (row.next_hop == octets(router) || row.next_hop == octets(
        Ipv4Addr { a: router.d, b: router.c, c: router.b, d: router.a },
    ))
}

/// A row counts as ours exactly if it is.
pub proof fn our_rows_are_told_apart(row: RouteRow, router: Ipv4Addr)
    ensures
        is_overlay(row, router) == is_ours(row, router),
{
    let back = Ipv4Addr { a: router.d, b: router.c, c: router.b, d: router.a };
    octets_stand_in_network_order(row.next_hop, router);
    octets_stand_in_network_order(row.next_hop, back);
    let hop = from_net_order(row.next_hop);
    assert(reversed(hop) == router <==> hop == back);
}

proof fn lemma_push_row(rows: Seq<RouteRow>, router: Ipv4Addr)
    requires
        rows.len() > 0,
    ensures
        overlay_rows(rows, router) == if is_overlay(rows.last(), router) {
            overlay_rows(rows.drop_last(), router).push(overlay_of(rows.last()))
        } else {
            overlay_rows(rows.drop_last(), router)
        },
{
    let front = rows.drop_last();
    let p = overlay_positions(front, router);
    let q = overlay_positions(rows, router);
    lemma_positions_in_range(front, router);
    assert forall|k: int| 0 <= k < p.len() implies #[trigger] overlay_rows(rows, router)[k]
        == overlay_rows(front, router)[k] by {
        assert(q[k] == p[k]);
        assert(front[p[k]] == rows[p[k]]);
    }
    assert(overlay_rows(rows, router) =~= if is_overlay(rows.last(), router) {
        overlay_rows(front, router).push(overlay_of(rows.last()))
    } else {
        overlay_rows(front, router)
    });
}

proof fn lemma_positions_in_range(rows: Seq<RouteRow>, router: Ipv4Addr)
    ensures
        forall|k: int|
            0 <= k < overlay_positions(rows, router).len() ==> 0 <= #[trigger] overlay_positions(
                rows,
                router,
            )[k] < rows.len(),
    decreases rows.len(),
{
    if rows.len() > 0 {
        lemma_positions_in_range(rows.drop_last(), router);
        let front = overlay_positions(rows.drop_last(), router);
        let all = overlay_positions(rows, router);
        assert forall|k: int| 0 <= k < all.len() implies 0 <= #[trigger] all[k] < rows.len() by {
            if k < front.len() {
                assert(all[k] == front[k]);
            }
        }
    }
}

/// Our rows are found in the order of the table: each position comes after the one before.
pub proof fn our_rows_are_found_in_order(rows: Seq<RouteRow>, router: Ipv4Addr, j: int, k: int)
    requires
        0 <= j < k < overlay_positions(rows, router).len(),
    ensures
        0 <= overlay_positions(rows, router)[j] < overlay_positions(rows, router)[k] < rows.len(),
    decreases rows.len(),
{
    let front = overlay_positions(rows.drop_last(), router);
    let all = overlay_positions(rows, router);
    lemma_positions_in_range(rows.drop_last(), router);
    lemma_positions_in_range(rows, router);
    if k < front.len() {
        our_rows_are_found_in_order(rows.drop_last(), router, j, k);
        assert(all[j] == front[j] && all[k] == front[k]);
    } else {
        assert(all[j] == front[j]);
        assert(all[k] == rows.len() - 1);
    }
}

/// The rows of two tables put together are those of the one and then those of the other.
pub proof fn our_rows_are_listed_in_order(
    a: Seq<RouteRow>,
    b: Seq<RouteRow>,
    router: Ipv4Addr,
)
    ensures
        overlay_rows(a + b, router) == overlay_rows(a, router) + overlay_rows(b, router),
    decreases b.len(),
{
    let all = a + b;
    if b.len() == 0 {
        assert(all =~= a);
        assert(overlay_rows(a, router) + overlay_rows(b, router) =~= overlay_rows(a, router));
    } else {
        our_rows_are_listed_in_order(a, b.drop_last(), router);
        assert(all.drop_last() =~= a + b.drop_last());
        assert(all.last() == b.last());
        lemma_push_row(all, router);
        lemma_push_row(b, router);
        assert(overlay_rows(all, router) =~= overlay_rows(a, router) + overlay_rows(b, router));
    }
}

/// Of a row of ours the interface, the prefix, its length and its lifetime are kept; nothing
/// is kept of another.
pub proof fn our_row_is_listed_as_it_stands(row: RouteRow, router: Ipv4Addr, dest: Ipv4Addr)
    requires
        row.destination == octets(dest),
    ensures
        ({
            let l = overlay_rows(seq![row], router);
            &&& !is_ours(row, router) ==> l.len() == 0
            &&& is_ours(row, router) ==> {
                &&& l.len() == 1
                &&& l[0].if_index == row.if_index
                &&& l[0].if_luid == row.if_luid
                &&& l[0].prefix == dest
                &&& l[0].prefix_len == row.prefix_len
                &&& l[0].valid_lifetime == row.valid_lifetime
            }
        }),
{
    our_rows_are_told_apart(row, router);
    octets_stand_in_network_order(row.destination, dest);
    lemma_push_row(seq![row], router);
    assert(seq![row].drop_last() =~= Seq::<RouteRow>::empty());
    assert(overlay_rows(Seq::<RouteRow>::empty(), router) =~= Seq::<OverlayRow>::empty());
}

/// Whether a row serves a half through the router: it is ours, of length one, leads to the
/// half, and has not expired.
pub open spec fn serves(row: RouteRow, router: Ipv4Addr, half: Half) -> bool {
    &&& is_ours(row, router)
    &&& row.prefix_len == 1
    &&& row.destination == octets(half_begins(half))
    &&& row.valid_lifetime != 0
}

/// Whether some row serves a half on an interface that is up, the given one if one is given.
pub open spec fn is_served(
    rows: Seq<RouteRow>,
    up: Seq<u32>,
    router: Ipv4Addr,
    half: Half,
    if_index: Option<u32>,
) -> bool {
    exists|k: int|
        0 <= k < rows.len() && serves(#[trigger] rows[k], router, half) && up.contains(
            rows[k].if_index,
        ) && (if_index is Some ==> if_index->0 == rows[k].if_index)
}

proof fn lemma_serves(row: RouteRow, router: Ipv4Addr, half: Half)
    ensures
        serves(row, router, half) <==> is_overlay(row, router) && covers(
            overlay_of(row),
            half_begins(half),
        ),
{
    our_rows_are_told_apart(row, router);
    octets_stand_in_network_order(row.destination, half_begins(half));
}

proof fn lemma_half_served(
    rows: Seq<RouteRow>,
    up: Seq<u32>,
    router: Ipv4Addr,
    half: Half,
    if_index: Option<u32>,
)
    ensures
        half_active(if_index, overlay_rows(rows, router), up, half_begins(half)) == is_served(
            rows,
            up,
            router,
            half,
            if_index,
        ),
{
    let found = overlay_rows(rows, router);
    let p = overlay_positions(rows, router);
    let prefix = half_begins(half);
    lemma_positions_in_range(rows, router);
    if half_active(if_index, found, up, prefix) {
        let k = choose|k: int|
            0 <= k < found.len() && covers(#[trigger] found[k], prefix) && up.contains(
                found[k].if_index,
            ) && (if_index matches Some(i) ==> found[k].if_index == i);
        assert(found[k] == overlay_of(rows[p[k]]));
        assert(p.contains(p[k]));
        scan_lists_exactly_our_rows(rows, router, p[k]);
        lemma_serves(rows[p[k]], router, half);
        assert(is_served(rows, up, router, half, if_index));
    }
    if is_served(rows, up, router, half, if_index) {
        let i = choose|k: int|
            0 <= k < rows.len() && serves(#[trigger] rows[k], router, half) && up.contains(
                rows[k].if_index,
            ) && (if_index is Some ==> if_index->0 == rows[k].if_index);
        lemma_serves(rows[i], router, half);
        scan_lists_exactly_our_rows(rows, router, i);
        let k = choose|k: int| 0 <= k < p.len() && p[k] == i;
        assert(found[k] == overlay_of(rows[i]));
    }
}

/// A handle is in effect exactly if both halves are served through its router, on its
/// interface where it names one.
pub proof fn handle_is_active_if_both_halves_are_served(
    h: HandleView,
    rows: Seq<RouteRow>,
    up: Seq<u32>,
)
    ensures
        h.next_hop matches Some(IpAddr::V4(ip)) ==> handle_active(h, rows, up) == (is_served(
            rows,
            up,
            ip,
            Half::Lower,
            h.if_index,
        ) && is_served(rows, up, ip, Half::Upper, h.if_index)),
        !(h.next_hop matches Some(IpAddr::V4(_))) ==> !handle_active(h, rows, up),
{
    match h.next_hop {
        Some(IpAddr::V4(ip)) => {
            lemma_half_served(rows, up, ip, Half::Lower, h.if_index);
            lemma_half_served(rows, up, ip, Half::Upper, h.if_index);
        },
        _ => {},
    }
}

proof fn lemma_covering_push(rows: Seq<OverlayRow>, row: OverlayRow, prefix: Ipv4Addr)
    ensures
        first_covering(rows.push(row), prefix) == if first_covering(rows, prefix) is Some {
            first_covering(rows, prefix)
        } else if covers(row, prefix) {
            Some(row)
        } else {
            None
        },
    decreases rows.len(),
{
    let all = rows.push(row);
    if rows.len() > 0 {
        assert(all[0] == rows[0]);
        assert(all.skip(1) =~= rows.skip(1).push(row));
        lemma_covering_push(rows.skip(1), row, prefix);
    } else {
        assert(all.skip(1) =~= Seq::<OverlayRow>::empty());
        reveal_with_fuel(first_covering, 2);
    }
}

/// Whether the row is the first that serves a half.
pub open spec fn is_first_serving(
    rows: Seq<RouteRow>,
    i: int,
    router: Ipv4Addr,
    half: Half,
) -> bool {
    &&& 0 <= i < rows.len()
    &&& serves(rows[i], router, half)
    &&& forall|k: int| 0 <= k < i ==> !serves(#[trigger] rows[k], router, half)
}

proof fn lemma_first_serving(rows: Seq<RouteRow>, i: int, router: Ipv4Addr, half: Half)
    ensures
        is_first_serving(rows, i, router, half) ==> first_covering(
            overlay_rows(rows, router),
            half_begins(half),
        ) == Some(overlay_of(rows[i])),
        (forall|k: int| 0 <= k < rows.len() ==> !serves(#[trigger] rows[k], router, half))
            ==> first_covering(overlay_rows(rows, router), half_begins(half)) is None,
    decreases rows.len(),
{
    let prefix = half_begins(half);
    if rows.len() > 0 {
        let front = rows.drop_last();
        lemma_push_row(rows, router);
        lemma_serves(rows.last(), router, half);
        lemma_covering_push(overlay_rows(front, router), overlay_of(rows.last()), prefix);
        lemma_first_serving(front, i, router, half);
        if is_first_serving(rows, i, router, half) {
            assert forall|k: int| 0 <= k < i && k < front.len() implies !serves(
                #[trigger] front[k],
                router,
                half,
            ) by {
                assert(front[k] == rows[k]);
            }
            if i < front.len() {
                assert(front[i] == rows[i]);
                assert(is_first_serving(front, i, router, half));
            } else {
                assert(rows.last() == rows[i]);
            }
        }
        if forall|k: int| 0 <= k < rows.len() ==> !serves(#[trigger] rows[k], router, half) {
            assert forall|k: int| 0 <= k < front.len() implies !serves(
                #[trigger] front[k],
                router,
                half,
            ) by {
                assert(front[k] == rows[k]);
            }
            assert(rows.last() == rows[rows.len() - 1]);
        }
    } else {
        assert(overlay_rows(rows, router) =~= Seq::<OverlayRow>::empty());
    }
}

/// An overlay is taken over exactly if both halves are served and the interfaces of the first
/// rows that serve them are up; the handle stands for these very rows.
pub proof fn existing_overlay_is_taken_over(
    rows: Seq<RouteRow>,
    up: Seq<u32>,
    router: Ipv4Addr,
    i: int,
    j: int,
)
    requires
        is_first_serving(rows, i, router, Half::Lower),
        is_first_serving(rows, j, router, Half::Upper),
    ensures
        ({
            let found = existing_handle(overlay_rows(rows, router), up, router);
            let ready = up.contains(rows[i].if_index) && up.contains(rows[j].if_index);
            &&& ready ==> found is Some && stands_for(
                found->0,
                router,
                rows[i].if_index,
                rows[i].if_luid,
                rows[j].if_index,
                rows[j].if_luid,
            )
            &&& !ready ==> found is None
        }),
{
    lemma_first_serving(rows, i, router, Half::Lower);
    lemma_first_serving(rows, j, router, Half::Upper);
}

/// Where a half is not served, there is no overlay to take over.
pub proof fn half_an_overlay_is_not_taken_over(
    rows: Seq<RouteRow>,
    up: Seq<u32>,
    router: Ipv4Addr,
    half: Half,
)
    requires
        forall|k: int| 0 <= k < rows.len() ==> !serves(#[trigger] rows[k], router, half),
    ensures
        existing_handle(overlay_rows(rows, router), up, router) is None,
{
    lemma_first_serving(rows, 0, router, half);
}

} // verus!
