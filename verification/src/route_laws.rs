//! What holds of the route overlay as a whole.

use vstd::arithmetic::power2::{lemma2_to64, pow2};
use vstd::prelude::*;

use crate::addr::{from_net_order, half_addr, net_order_round_trip, zero_addr, Ipv4Addr};
use crate::ip_text::{ipv4_text_reads_back, lemma_v4_text_chars, v4_text};
use crate::number::{byte_number, dec, digits_value};
use crate::protocol::HandleView;
use crate::route_overlay::{
    covers, existing_handle, extra_rows, first_covering, half_active, handle_active, is_overlay,
    main_row, overlay_of, overlay_positions, overlay_rows, prefix_of, row_of, Attempt, Half,
    OverlayActionView, OverlayEnable, OverlayPhase, OverlayReply, OverlayRow, RouteRow,
    EXTRA_PREFIX, MAIN_PREFIX,
};
use crate::text::{lemma_first_where_at, only};

verus! {

/// The addresses of a row read back as they were written.
pub proof fn row_addresses_read_back(
    if_luid: u64,
    if_index: u32,
    dest: Ipv4Addr,
    prefix_len: u8,
    next_hop: Ipv4Addr,
    metric: u32,
)
    ensures
        ({
            let row = row_of(if_luid, if_index, dest, prefix_len, next_hop, metric);
            from_net_order(row.destination) == dest && from_net_order(row.next_hop) == next_hop
        }),
{
    net_order_round_trip(dest);
    net_order_round_trip(next_hop);
}

/// Whether an address belongs to the network with the prefix.
pub open spec fn in_network(ip: Ipv4Addr, network: Ipv4Addr, prefix_len: u8) -> bool {
    let size = pow2((32 - prefix_len) as nat) as int;
    ip.value() / size == network.value() / size
}

/// Whether a row decides where packets to the address go, before any default route: it is
/// valid, its network holds the address, and its prefix is longer than the empty one.
pub open spec fn outdoes_default(row: RouteRow, ip: Ipv4Addr) -> bool {
    &&& in_network(ip, from_net_order(row.destination), row.prefix_len)
    &&& row.prefix_len > 0
    &&& row.valid_lifetime != 0
}

/// Together the two routes take every packet away from the default route, whatever the
/// metrics are: each address belongs to exactly one of them, and both lead to the router.
pub proof fn overlay_takes_all_traffic(m: OverlayEnable, ip: Ipv4Addr)
    ensures
        outdoes_default(m.row(Half::Lower), ip) != outdoes_default(m.row(Half::Upper), ip),
        from_net_order(m.row(Half::Lower).next_hop) == m.bypass_ip,
        from_net_order(m.row(Half::Upper).next_hop) == m.bypass_ip,
{
    lemma2_to64();
    net_order_round_trip(m.bypass_ip);
    net_order_round_trip(zero_addr());
    net_order_round_trip(half_addr());
    assert(pow2(31) == 0x8000_0000);
    assert(ip.value() / 0x8000_0000 == if ip.a < 128 {
        0int
    } else {
        1
    });
}

proof fn lemma_positions(rows: Seq<RouteRow>, ip: Ipv4Addr)
    ensures
        forall|k: int|
            0 <= k < overlay_positions(rows, ip).len() ==> 0 <= #[trigger] overlay_positions(
                rows,
                ip,
            )[k] < rows.len(),
    decreases rows.len(),
{
    if rows.len() > 0 {
        lemma_positions(rows.drop_last(), ip);
        let front = overlay_positions(rows.drop_last(), ip);
        let all = overlay_positions(rows, ip);
        assert forall|k: int| 0 <= k < all.len() implies 0 <= #[trigger] all[k] < rows.len() by {
            if k < front.len() {
                assert(all[k] == front[k]);
            }
        }
    }
}

/// The scan lists exactly the rows of ours: none is missed and nothing else is touched.
pub proof fn scan_lists_exactly_our_rows(rows: Seq<RouteRow>, ip: Ipv4Addr, i: int)
    requires
        0 <= i < rows.len(),
    ensures
        overlay_positions(rows, ip).contains(i) <==> is_overlay(rows[i], ip),
    decreases rows.len(),
{
    let front = overlay_positions(rows.drop_last(), ip);
    let all = overlay_positions(rows, ip);
    lemma_positions(rows.drop_last(), ip);
    if i < rows.len() - 1 {
        scan_lists_exactly_our_rows(rows.drop_last(), ip, i);
        if front.contains(i) {
            let k = choose|k: int| 0 <= k < front.len() && front[k] == i;
            assert(all[k] == i);
        }
        if all.contains(i) {
            let k = choose|k: int| 0 <= k < all.len() && all[k] == i;
            assert(k < front.len());
            assert(front[k] == i);
        }
    } else {
        if is_overlay(rows[i], ip) {
            assert(all[front.len() as int] == i);
        } else {
            if all.contains(i) {
                let k = choose|k: int| 0 <= k < all.len() && all[k] == i;
                assert(front[k] == i);
            }
        }
    }
}

/// The log of a run: what was asked and how it was answered, and what is asked now.
pub struct OverlayRun {
    pub machine: OverlayEnable,
    pub asked: OverlayActionView,
    pub log: Seq<(OverlayActionView, OverlayReply)>,
}

/// A run of enabling the overlay through `ip`; answers that do not suit are passed over.
pub open spec fn overlay_run(ip: Ipv4Addr, metric: u32, replies: Seq<OverlayReply>) -> OverlayRun
    decreases replies.len(),
{
    if replies.len() == 0 {
        OverlayRun {
            machine: OverlayEnable {
                bypass_ip: ip,
                metric,
                if_index: 0,
                if_luid: 0,
                phase: OverlayPhase::Resolving,
            },
            asked: OverlayActionView::ResolveInterface(ip),
            log: seq![],
        }
    } else {
        let before = overlay_run(ip, metric, replies.drop_last());
        match before.machine.stepped(replies.last()) {
            (machine, Some(asked)) => OverlayRun {
                machine,
                asked,
                log: before.log.push((before.asked, replies.last())),
            },
            (_, None) => before,
        }
    }
}

/// Whether the row was created, by the log.
pub open spec fn was_created(
    log: Seq<(OverlayActionView, OverlayReply)>,
    row: RouteRow,
) -> bool {
    log.contains((OverlayActionView::Create(row), OverlayReply::Code(0)))
}

/// Whether a log holds no creation.
pub open spec fn creates_nothing(log: Seq<(OverlayActionView, OverlayReply)>) -> bool {
    forall|k: int| 0 <= k < log.len() ==> !((#[trigger] log[k]).0 is Create)
}

/// What is asked in each phase, and what must have happened by then.
pub open spec fn run_inv(r: OverlayRun) -> bool {
    match r.machine.phase {
        OverlayPhase::Resolving => r.log.len() == 0 && r.asked
            == OverlayActionView::ResolveInterface(r.machine.bypass_ip),
        OverlayPhase::Cleaning => r.asked == OverlayActionView::Cleanup(r.machine.bypass_ip)
            && creates_nothing(r.log),
        OverlayPhase::Adding(half, attempt) => {
            &&& r.asked == r.machine.adding(half, attempt).1->0
            &&& half == Half::Upper ==> was_created(r.log, r.machine.row(Half::Lower))
        },
        OverlayPhase::Reverting(code) => r.asked == OverlayActionView::Cleanup(r.machine.bypass_ip),
        OverlayPhase::Finished => {
            &&& r.log.len() > 0
            &&& match r.asked {
                OverlayActionView::Finish(Ok(h)) => {
                    &&& h == r.machine.handle()
                    &&& was_created(r.log, r.machine.row(Half::Lower))
                    &&& was_created(r.log, r.machine.row(Half::Upper))
                },
                OverlayActionView::Finish(Err(_)) => {
                    ||| creates_nothing(r.log)
                    ||| r.log.last().0 == OverlayActionView::Cleanup(r.machine.bypass_ip)
                },
                _ => false,
            }
        },
    }
}

pub proof fn lemma_run_inv(ip: Ipv4Addr, metric: u32, replies: Seq<OverlayReply>)
    ensures
        run_inv(overlay_run(ip, metric, replies)),
        overlay_run(ip, metric, replies).machine.bypass_ip == ip,
        overlay_run(ip, metric, replies).machine.metric == metric,
    decreases replies.len(),
{
    if replies.len() > 0 {
        let b = overlay_run(ip, metric, replies.drop_last());
        lemma_run_inv(ip, metric, replies.drop_last());
        let r = overlay_run(ip, metric, replies);
        let entry = (b.asked, replies.last());
        if b.machine.stepped(replies.last()).1 is Some {
            assert(r.log[b.log.len() as int] == entry);
            assert forall|row: RouteRow| was_created(b.log, row) implies #[trigger] was_created(
                r.log,
                row,
            ) by {
                let e = (OverlayActionView::Create(row), OverlayReply::Code(0));
                let k = choose|k: int| 0 <= k < b.log.len() && b.log[k] == e;
                assert(r.log[k] == e);
            }
            match b.machine.phase {
                OverlayPhase::Adding(half, attempt) => {
                    if attempt != Attempt::Clearing && replies.last() == OverlayReply::Code(0) {
                        assert(r.log.contains(entry));
                        assert(was_created(r.log, b.machine.row(half)));
                        assert(b.machine.row(Half::Lower) == r.machine.row(Half::Lower));
                        assert(b.machine.row(Half::Upper) == r.machine.row(Half::Upper));
                    }
                },
                _ => {},
            }
        }
    }
}

/// Enabling succeeds only once both routes have been created, and then with the handle
/// of exactly these.
pub proof fn success_means_both_routes(
    ip: Ipv4Addr,
    metric: u32,
    replies: Seq<OverlayReply>,
    h: HandleView,
)
    requires
        overlay_run(ip, metric, replies).asked == OverlayActionView::Finish(Ok(h)),
    ensures
        ({
            let r = overlay_run(ip, metric, replies);
            &&& h == r.machine.handle()
            &&& was_created(r.log, r.machine.row(Half::Lower))
            &&& was_created(r.log, r.machine.row(Half::Upper))
        }),
{
    lemma_run_inv(ip, metric, replies);
}

/// Enabling fails either before any route is created or right after everything through
/// the router has been removed: half an overlay is never left behind.
pub proof fn failure_leaves_nothing_behind(ip: Ipv4Addr, metric: u32, replies: Seq<OverlayReply>)
    requires
        overlay_run(ip, metric, replies).asked is Finish,
        overlay_run(ip, metric, replies).asked->Finish_0 is Err,
    ensures
        ({
            let r = overlay_run(ip, metric, replies);
            ||| creates_nothing(r.log)
            ||| r.log.last().0 == OverlayActionView::Cleanup(ip)
        }),
{
    lemma_run_inv(ip, metric, replies);
}

proof fn lemma_prefixes()
    ensures
        prefix_of(MAIN_PREFIX@) == Some((zero_addr(), 1u8)),
        prefix_of(EXTRA_PREFIX@) == Some((half_addr(), 1u8)),
{
    reveal_strlit("0.0.0.0/1");
    reveal_strlit("128.0.0.0/1");
    reveal_with_fuel(dec, 4);
    assert(dec(0) =~= seq!['0']);
    assert(dec(128) =~= seq!['1', '2', '8']);
    assert(MAIN_PREFIX@ =~= v4_text(zero_addr()) + seq!['/', '1']);
    assert(EXTRA_PREFIX@ =~= v4_text(half_addr()) + seq!['/', '1']);
    lemma_prefix_text(MAIN_PREFIX@, zero_addr());
    lemma_prefix_text(EXTRA_PREFIX@, half_addr());
}

proof fn lemma_prefix_text(s: Seq<char>, ip: Ipv4Addr)
    requires
        s == v4_text(ip) + seq!['/', '1'],
    ensures
        prefix_of(s) == Some((ip, 1u8)),
{
    let a = v4_text(ip);
    ipv4_text_reads_back(ip);
    lemma_v4_text_chars(ip);
    assert forall|k: int| 0 <= k < a.len() implies !only('/')(#[trigger] s[k]) by {
        assert(s[k] == a[k]);
    }
    lemma_first_where_at(s, only('/'), a.len() as int);
    assert(s.take(a.len() as int) =~= a);
    let one = s.skip(a.len() as int + 1);
    assert(one =~= seq!['1']);
    reveal_with_fuel(digits_value, 2);
    assert(one.drop_last() =~= Seq::<char>::empty());
    assert(digits_value(one, 10) == 1);
    assert(byte_number(one) == Some(1nat));
}

/// Whether two rows name the same route: what the system goes by when it deletes.
pub open spec fn same_route(a: RouteRow, b: RouteRow) -> bool {
    &&& a.if_luid == b.if_luid
    &&& a.if_index == b.if_index
    &&& a.destination == b.destination
    &&& a.prefix_len == b.prefix_len
    &&& a.next_hop == b.next_hop
}

/// Disabling with the handle that enabling returned deletes exactly the two routes that
/// enabling created.
pub proof fn disable_undoes_enable(m: OverlayEnable)
    ensures
        ({
            let h = m.handle();
            let extras = extra_rows(h.extra_routes, m.bypass_ip);
            &&& h.if_luid == Some(m.if_luid)
            &&& same_route(main_row(h, m.if_luid, m.bypass_ip), m.row(Half::Lower))
            &&& extras.len() == 1
            &&& same_route(extras[0], m.row(Half::Upper))
        }),
{
    lemma_prefixes();
    let routes = m.handle().extra_routes;
    assert(routes.drop_last() =~= Seq::empty());
    reveal_with_fuel(extra_rows, 2);
}

proof fn lemma_half_active(m: OverlayEnable, rows: Seq<RouteRow>, up: Seq<u32>, half: Half, i: int)
    requires
        0 <= i < rows.len(),
        rows[i] == m.row(half),
        up.contains(m.if_index),
    ensures
        half_active(
            Some(m.if_index),
            overlay_rows(rows, m.bypass_ip),
            up,
            match half {
                Half::Lower => zero_addr(),
                Half::Upper => half_addr(),
            },
        ),
{
    let ip = m.bypass_ip;
    net_order_round_trip(ip);
    net_order_round_trip(zero_addr());
    net_order_round_trip(half_addr());
    scan_lists_exactly_our_rows(rows, ip, i);
    let p = overlay_positions(rows, ip);
    let k = choose|k: int| 0 <= k < p.len() && p[k] == i;
    assert(overlay_rows(rows, ip)[k] == overlay_of(rows[i]));
}

/// With both routes in the table and the interface up, the overlay counts as active.
pub proof fn created_routes_are_active(
    m: OverlayEnable,
    rows: Seq<RouteRow>,
    up: Seq<u32>,
    i: int,
    j: int,
)
    requires
        0 <= i < rows.len(),
        0 <= j < rows.len(),
        rows[i] == m.row(Half::Lower),
        rows[j] == m.row(Half::Upper),
        up.contains(m.if_index),
    ensures
        handle_active(m.handle(), rows, up),
{
    lemma_half_active(m, rows, up, Half::Lower, i);
    lemma_half_active(m, rows, up, Half::Upper, j);
}

proof fn lemma_first_covering(rows: Seq<OverlayRow>, prefix: Ipv4Addr)
    requires
        first_covering(rows, prefix) is Some,
    ensures
        exists|k: int|
            0 <= k < rows.len() && #[trigger] rows[k] == first_covering(rows, prefix)->0 && covers(
                rows[k],
                prefix,
            ),
    decreases rows.len(),
{
    if !covers(rows[0], prefix) {
        lemma_first_covering(rows.skip(1), prefix);
        let k = choose|k: int|
            0 <= k < rows.skip(1).len() && #[trigger] rows.skip(1)[k] == first_covering(
                rows.skip(1),
                prefix,
            )->0 && covers(rows.skip(1)[k], prefix);
        assert(rows[k + 1] == rows.skip(1)[k]);
    }
}

/// An overlay that is taken over is active, where both of its routes leave through the
/// same interface.
pub proof fn adopted_overlay_is_active(rows: Seq<RouteRow>, up: Seq<u32>, ip: Ipv4Addr, h: HandleView)
    requires
        existing_handle(overlay_rows(rows, ip), up, ip) == Some(h),
        h.if_index == Some(h.extra_routes[0].if_index),
    ensures
        handle_active(h, rows, up),
{
    let found = overlay_rows(rows, ip);
    lemma_first_covering(found, zero_addr());
    lemma_first_covering(found, half_addr());
}

} // verus!
