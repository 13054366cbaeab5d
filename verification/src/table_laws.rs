//! What the route overlay makes of the system's route table.

use vstd::prelude::*;

use crate::addr::{half_addr, net_order_round_trip, zero_addr, Ipv4Addr};
use crate::protocol::HandleView;
use crate::route_laws::{
    disable_undoes_enable, lemma_run_inv, overlay_run, run_inv, same_route, OverlayRun,
};
use crate::route_overlay::{
    extra_rows, is_overlay, main_row, Half, OverlayActionView, OverlayEnable, OverlayPhase,
    OverlayReply, RouteRow,
};

verus! {

/// The table without the rows that name the same route as the given one.
pub open spec fn without_route(t: Set<RouteRow>, row: RouteRow) -> Set<RouteRow> {
    t.filter(|r: RouteRow| !same_route(r, row))
}

/// The table without overlay routes through `ip`.
pub open spec fn without_overlay(t: Set<RouteRow>, ip: Ipv4Addr) -> Set<RouteRow> {
    t.filter(|r: RouteRow| !is_overlay(r, ip))
}

/// Whether the table has no overlay routes through `ip`.
pub open spec fn has_no_overlay(t: Set<RouteRow>, ip: Ipv4Addr) -> bool {
    forall|r: RouteRow| #[trigger] t.contains(r) ==> !is_overlay(r, ip)
}

/// Whether one table may follow another after an action and its answer. A creation adds
/// the row, a deletion takes away the rows of the same name, and what fails changes
/// nothing. A cleanup takes away all overlay routes through its address; where one of them
/// cannot be deleted, it takes away some of them.
pub open spec fn follows(
    before: Set<RouteRow>,
    asked: OverlayActionView,
    reply: OverlayReply,
    after: Set<RouteRow>,
) -> bool {
    match (asked, reply) {
        (OverlayActionView::Create(row), OverlayReply::Code(0)) => after == before.insert(row),
        (OverlayActionView::Delete(row), OverlayReply::Code(0)) => after == without_route(
            before,
            row,
        ),
        (OverlayActionView::Cleanup(ip), OverlayReply::Code(0)) => after == without_overlay(
            before,
            ip,
        ),
        (OverlayActionView::Cleanup(ip), OverlayReply::Code(_)) => {
            &&& without_overlay(before, ip).subset_of(after)
            &&& after.subset_of(before)
        },
        _ => after == before,
    }
}

/// Whether these are the tables that a run went through: the one before it, and the one
/// after each answer.
pub open spec fn tables_of(
    log: Seq<(OverlayActionView, OverlayReply)>,
    tables: Seq<Set<RouteRow>>,
) -> bool {
    &&& tables.len() == log.len() + 1
    &&& forall|k: int|
        0 <= k < log.len() ==> follows(
            #[trigger] tables[k],
            log[k].0,
            log[k].1,
            tables[k + 1],
        )
}

/// Whether a row names one of the routes of an overlay.
pub open spec fn names_ours(row: RouteRow, m: OverlayEnable) -> bool {
    same_route(row, m.row(Half::Lower)) || same_route(row, m.row(Half::Upper))
}

/// Whether no route of anyone else's has the name of one of the overlay's.
pub open spec fn names_are_free(t: Set<RouteRow>, m: OverlayEnable) -> bool {
    forall|row: RouteRow| #[trigger]
        t.contains(row) && names_ours(row, m) ==> is_overlay(row, m.bypass_ip)
}

/// Whether nothing was left for the first cleanup, or it has left nothing.
pub open spec fn begins_clean(r: OverlayRun, t: Set<RouteRow>) -> bool {
    ||| has_no_overlay(t, r.machine.bypass_ip)
    ||| r.log.len() > 1 && r.log[1].1 == OverlayReply::Code(0)
}

/// What has become of a table: routes that are neither overlay routes through the router
/// nor named like ours stand as they stood, and nothing has come but our two.
pub open spec fn grown_from(t: Set<RouteRow>, before: Set<RouteRow>, m: OverlayEnable) -> bool {
    &&& forall|row: RouteRow|
        !is_overlay(row, m.bypass_ip) && !names_ours(row, m) ==> (#[trigger] t.contains(row)
            <==> before.contains(row))
    &&& forall|row: RouteRow| #[trigger]
        t.contains(row) ==> row == m.row(Half::Lower) || row == m.row(Half::Upper)
            || before.contains(row)
}

spec fn only_ours(t: Set<RouteRow>, m: OverlayEnable) -> bool {
    forall|row: RouteRow| #[trigger]
        t.contains(row) && is_overlay(row, m.bypass_ip) ==> row == m.row(Half::Lower) || row
            == m.row(Half::Upper)
}

spec fn table_inv(r: OverlayRun, tables: Seq<Set<RouteRow>>) -> bool {
    let m = r.machine;
    let first = tables[0];
    let t = tables.last();
    match m.phase {
        OverlayPhase::Resolving => t == first,
        OverlayPhase::Cleaning => t == first && r.log.len() == 1,
        OverlayPhase::Adding(half, _) => {
            &&& r.log.len() > 1
            &&& grown_from(t, first, m)
            &&& begins_clean(r, first) ==> only_ours(t, m)
            &&& half == Half::Upper ==> t.contains(m.row(Half::Lower))
        },
        OverlayPhase::Reverting(_) => grown_from(t, first, m),
        OverlayPhase::Finished => match r.asked {
            OverlayActionView::Finish(Ok(_)) => {
                &&& grown_from(t, first, m)
                &&& begins_clean(r, first) ==> only_ours(t, m)
                &&& t.contains(m.row(Half::Lower))
                &&& t.contains(m.row(Half::Upper))
            },
            _ => {
                ||| t == first
                ||| {
                    &&& grown_from(t, first, m)
                    &&& r.log.last().0 is Cleanup
                    &&& r.log.last().1 == OverlayReply::Code(0) ==> has_no_overlay(t, m.bypass_ip)
                }
            },
        },
    }
}

proof fn lemma_our_rows(m: OverlayEnable)
    ensures
        is_overlay(m.row(Half::Lower), m.bypass_ip),
        is_overlay(m.row(Half::Upper), m.bypass_ip),
        m.row(Half::Lower).destination != m.row(Half::Upper).destination,
{
    net_order_round_trip(m.bypass_ip);
    net_order_round_trip(zero_addr());
    net_order_round_trip(half_addr());
}

proof fn lemma_table_inv(
    ip: Ipv4Addr,
    metric: u32,
    replies: Seq<OverlayReply>,
    tables: Seq<Set<RouteRow>>,
)
    requires
        tables_of(overlay_run(ip, metric, replies).log, tables),
    ensures
        table_inv(overlay_run(ip, metric, replies), tables),
    decreases replies.len(),
{
    let r = overlay_run(ip, metric, replies);
    if replies.len() > 0 {
        let b = overlay_run(ip, metric, replies.drop_last());
        let reply = replies.last();
        lemma_run_inv(ip, metric, replies.drop_last());
        if b.machine.stepped(reply).1 is Some {
            let front = tables.drop_last();
            assert forall|k: int| 0 <= k < b.log.len() implies follows(
                #[trigger] front[k],
                b.log[k].0,
                b.log[k].1,
                front[k + 1],
            ) by {
                assert(front[k] == tables[k]);
                assert(front[k + 1] == tables[k + 1]);
                assert(r.log[k] == b.log[k]);
            }
            lemma_table_inv(ip, metric, replies.drop_last(), front);
            lemma_table_step(b, r, reply, front, tables);
        } else {
            lemma_table_inv(ip, metric, replies.drop_last(), tables);
        }
    }
}

proof fn lemma_table_step(
    b: OverlayRun,
    r: OverlayRun,
    reply: OverlayReply,
    front: Seq<Set<RouteRow>>,
    tables: Seq<Set<RouteRow>>,
)
    requires
        run_inv(b),
        table_inv(b, front),
        b.machine.stepped(reply) == (r.machine, Some(r.asked)),
        r.log == b.log.push((b.asked, reply)),
        tables_of(r.log, tables),
        front == tables.drop_last(),
    ensures
        table_inv(r, tables),
{
    let k = b.log.len() as int;
    let t = tables.last();
    let before = front.last();
    assert(before == tables[k]);
    assert(r.log[k] == (b.asked, reply));
    assert(follows(before, b.asked, reply, t));
    assert(front[0] == tables[0]);
    lemma_our_rows(r.machine);
    if b.log.len() > 1 {
        assert(r.log[1] == b.log[1]);
    }
    match b.machine.phase {
        OverlayPhase::Adding(half, _) => {
            assert(b.machine.row(Half::Lower) == r.machine.row(Half::Lower));
            assert(b.machine.row(Half::Upper) == r.machine.row(Half::Upper));
        },
        OverlayPhase::Reverting(_) => {
            assert(b.machine.row(Half::Lower) == r.machine.row(Half::Lower));
            assert(b.machine.row(Half::Upper) == r.machine.row(Half::Upper));
        },
        _ => {},
    }
}

/// However far enabling has come and whatever failed, routes of anyone else's stand as
/// they stood: those that are neither overlay routes through the router nor named like one
/// of the two routes. And nothing has come but the two.
pub proof fn enabling_touches_no_other_route(
    ip: Ipv4Addr,
    metric: u32,
    replies: Seq<OverlayReply>,
    tables: Seq<Set<RouteRow>>,
)
    requires
        tables_of(overlay_run(ip, metric, replies).log, tables),
    ensures
        grown_from(tables.last(), tables[0], overlay_run(ip, metric, replies).machine),
{
    lemma_table_inv(ip, metric, replies, tables);
    lemma_run_inv(ip, metric, replies);
}

/// Enabling that fails leaves no route behind: either the table is the one before it, or
/// it has no overlay routes through the router, as far as the system let them be deleted.
/// Where no one else's route had one of the two names, nothing else is missing.
pub proof fn failed_enabling_leaves_no_route(
    ip: Ipv4Addr,
    metric: u32,
    replies: Seq<OverlayReply>,
    tables: Seq<Set<RouteRow>>,
)
    requires
        overlay_run(ip, metric, replies).asked is Finish,
        overlay_run(ip, metric, replies).asked->Finish_0 is Err,
        tables_of(overlay_run(ip, metric, replies).log, tables),
    ensures
        ({
            let r = overlay_run(ip, metric, replies);
            tables.last() == tables[0] || (r.log.last().0 is Cleanup && (r.log.last().1
                == OverlayReply::Code(0) ==> {
                &&& has_no_overlay(tables.last(), ip)
                &&& names_are_free(tables[0], r.machine) ==> tables.last() == without_overlay(
                    tables[0],
                    ip,
                )
            }))
        }),
{
    let r = overlay_run(ip, metric, replies);
    lemma_table_inv(ip, metric, replies, tables);
    lemma_run_inv(ip, metric, replies);
    lemma_our_rows(r.machine);
    if tables.last() != tables[0] && r.log.last().1 == OverlayReply::Code(0) && names_are_free(
        tables[0],
        r.machine,
    ) {
        assert(tables.last() =~= without_overlay(tables[0], ip));
    }
}

/// Enabling and then disabling gives the table back, but for overlay routes through the
/// router that an earlier run had left in it. This is so where no one else's route had one
/// of the two names, and where such leftovers could be deleted, if there were any.
pub proof fn disabling_gives_the_table_back(
    ip: Ipv4Addr,
    metric: u32,
    replies: Seq<OverlayReply>,
    tables: Seq<Set<RouteRow>>,
    h: HandleView,
)
    requires
        overlay_run(ip, metric, replies).asked == OverlayActionView::Finish(Ok(h)),
        tables_of(overlay_run(ip, metric, replies).log, tables),
        begins_clean(overlay_run(ip, metric, replies), tables[0]),
        names_are_free(tables[0], overlay_run(ip, metric, replies).machine),
    ensures
        ({
            let extras = extra_rows(h.extra_routes, ip);
            let main = main_row(h, h.if_luid->0, ip);
            let after = without_route(without_route(tables.last(), main), extras[0]);
            &&& h.if_luid is Some
            &&& extras.len() == 1
            &&& tables.last().contains(
                overlay_run(ip, metric, replies).machine.row(Half::Lower),
            )
            &&& tables.last().contains(
                overlay_run(ip, metric, replies).machine.row(Half::Upper),
            )
            &&& after == without_overlay(tables[0], ip)
            &&& has_no_overlay(tables[0], ip) ==> after == tables[0]
        }),
{
    let r = overlay_run(ip, metric, replies);
    let m = r.machine;
    lemma_table_inv(ip, metric, replies, tables);
    lemma_run_inv(ip, metric, replies);
    lemma_our_rows(m);
    disable_undoes_enable(m);
    let extras = extra_rows(h.extra_routes, ip);
    let main = main_row(h, h.if_luid->0, ip);
    let after = without_route(without_route(tables.last(), main), extras[0]);
    assert(after =~= without_overlay(tables[0], ip));
    if has_no_overlay(tables[0], ip) {
        assert(without_overlay(tables[0], ip) =~= tables[0]);
    }
}

} // verus!
