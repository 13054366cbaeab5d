//! Route overlay: two routes of prefix length one that together cover every address
//! and win over the default route.

use vstd::prelude::*;

use crate::addr::{
    from_net_order, half_addr, ip_to_net_order, ipv4_from_net_order, net_order, reverse_octets,
    reversed, unspecified, upper_half, zero_addr, IpAddr, Ipv4Addr,
};
use crate::error::{CoreError, ErrorView};
use crate::ip_text::{ipv4_text, parse_ipv4, v4_of_text, v4_text};
use crate::number::{byte_number, dec, dec_text, hex, hex_text, parse_byte};
use crate::protocol::{
    BypassTarget, HandleRoute, HandleRouteView, HandleView, SwitchHandle, SwitchMode,
};
use crate::switch_engine::{ReconcileAction, ROUTE_METRIC};
use crate::text::{concat2, concat4, cut_once, split_once};

verus! {

/// The lower half of the addresses.
pub const MAIN_PREFIX: &'static str = "0.0.0.0/1";

/// The upper half of the addresses.
pub const EXTRA_PREFIX: &'static str = "128.0.0.0/1";

/// The protocol number of routes made by network management.
pub const ROUTE_PROTOCOL_NETMGMT: i32 = 3;

/// A lifetime without end. A route whose lifetime is zero stays in the table but
/// forwards nothing.
pub const INFINITE_LIFETIME: u32 = 0xffff_ffff;

/// A row of the system's route table; addresses are in network order.
#[derive(Debug, Clone, Copy, PartialEq, Eq, Structural)]
pub struct RouteRow {
    pub if_luid: u64,
    pub if_index: u32,
    pub destination: u32,
    pub prefix_len: u8,
    pub next_hop: u32,
    pub metric: u32,
    pub protocol: i32,
    pub valid_lifetime: u32,
    pub preferred_lifetime: u32,
}

/// The row of a route through `next_hop` that never expires.
pub open spec fn row_of(
    if_luid: u64,
    if_index: u32,
    dest: Ipv4Addr,
    prefix_len: u8,
    next_hop: Ipv4Addr,
    metric: u32,
) -> RouteRow {
    RouteRow {
        if_luid,
        if_index,
        destination: net_order(dest) as u32,
        prefix_len,
        next_hop: net_order(next_hop) as u32,
        metric,
        protocol: ROUTE_PROTOCOL_NETMGMT,
        valid_lifetime: INFINITE_LIFETIME,
        preferred_lifetime: INFINITE_LIFETIME,
    }
}

/// Builds the row of a route through `next_hop` that never expires.
pub fn build_row(
    if_luid: u64,
    if_index: u32,
    dest: Ipv4Addr,
    prefix_len: u8,
    next_hop: Ipv4Addr,
    metric: u32,
) -> (row: RouteRow)
    ensures
        row == row_of(if_luid, if_index, dest, prefix_len, next_hop, metric),
{
    RouteRow {
        if_luid,
        if_index,
        destination: ip_to_net_order(dest),
        prefix_len,
        next_hop: ip_to_net_order(next_hop),
        metric,
        protocol: ROUTE_PROTOCOL_NETMGMT,
        valid_lifetime: INFINITE_LIFETIME,
        preferred_lifetime: INFINITE_LIFETIME,
    }
}

/// The prefix and the length that a text such as "128.0.0.0/1" writes.
pub open spec fn prefix_of(s: Seq<char>) -> Option<(Ipv4Addr, u8)> {
    match split_once(s, '/') {
        Some((a, l)) => match (v4_of_text(a), byte_number(l)) {
            (Some(ip), Some(n)) => Some((ip, n as u8)),
            _ => None,
        },
        None => None,
    }
}

/// Reads a prefix such as "128.0.0.0/1".
pub fn parse_v4_prefix(s: &str) -> (out: Option<(Ipv4Addr, u8)>)
    ensures
        out == prefix_of(s@),
{
    match cut_once(s, '/') {
        Some((a, l)) => match (parse_ipv4(a.as_str()), parse_byte(l.as_str())) {
            (Some(ip), Some(n)) => Some((ip, n)),
            _ => None,
        },
        None => None,
    }
}

// ---------------------------------------------------------------------------
// Finding overlay routes in the table
// ---------------------------------------------------------------------------

/// Whether a row is one of ours through `ip`: a prefix of length zero or one, made by
/// network management, with `ip` as its next hop in either byte order.
pub open spec fn is_overlay(row: RouteRow, ip: Ipv4Addr) -> bool {
    &&& row.prefix_len <= 1
    &&& row.protocol == ROUTE_PROTOCOL_NETMGMT
    &&& (from_net_order(row.next_hop) == ip || reversed(from_net_order(row.next_hop)) == ip)
}

/// Where the rows of ours through `ip` stand in the table, in order.
pub open spec fn overlay_positions(rows: Seq<RouteRow>, ip: Ipv4Addr) -> Seq<int>
    decreases rows.len(),
{
    if rows.len() == 0 {
        seq![]
    } else {
        let front = overlay_positions(rows.drop_last(), ip);
        if is_overlay(rows.last(), ip) {
            front.push(rows.len() - 1)
        } else {
            front
        }
    }
}

fn check_overlay(row: &RouteRow, ip: Ipv4Addr) -> (r: bool)
    ensures
        r == is_overlay(*row, ip),
{
    let hop = ipv4_from_net_order(row.next_hop);
    row.prefix_len <= 1 && row.protocol == ROUTE_PROTOCOL_NETMGMT && (hop == ip || reverse_octets(
        hop,
    ) == ip)
}

/// Finds the rows of ours through `ip`; each is to be deleted as it stands in the table.
pub fn scan_overlay_rows_raw(rows: &Vec<RouteRow>, ip: Ipv4Addr) -> (out: Vec<usize>)
    ensures
        out@.map_values(|i: usize| i as int) == overlay_positions(rows@, ip),
        forall|k: int| 0 <= k < out@.len() ==> #[trigger] out@[k] < rows@.len(),
{
    let mut out: Vec<usize> = Vec::new();
    let mut i: usize = 0;
    assert(out@.map_values(|i: usize| i as int) =~= overlay_positions(rows@.take(0), ip));
    while i < rows.len()
        invariant
            i <= rows@.len(),
            out@.map_values(|i: usize| i as int) == overlay_positions(rows@.take(i as int), ip),
            forall|k: int| 0 <= k < out@.len() ==> #[trigger] out@[k] < rows@.len(),
        decreases rows@.len() - i,
    {
        let ghost before = out@;
        assert(rows@.take(i + 1).drop_last() =~= rows@.take(i as int));
        if check_overlay(&rows[i], ip) {
            out.push(i);
            assert(out@.map_values(|i: usize| i as int) =~= before.map_values(
                |i: usize| i as int,
            ).push(i as int));
        }
        i = i + 1;
    }
    assert(rows@.take(rows@.len() as int) =~= rows@);
    out
}

/// How many of the deletions went well.
pub open spec fn successes(codes: Seq<u32>) -> nat
    decreases codes.len(),
{
    if codes.len() == 0 {
        0
    } else {
        successes(codes.drop_last()) + if codes.last() == 0 {
            1nat
        } else {
            0
        }
    }
}

/// Counts the deletions that went well, by the codes that the system answered with.
pub fn cleanup_routes_via(codes: &Vec<u32>) -> (removed: usize)
    ensures
        removed == successes(codes@),
{
    let mut removed: usize = 0;
    let mut i: usize = 0;
    while i < codes.len()
        invariant
            i <= codes@.len(),
            removed <= i,
            removed == successes(codes@.take(i as int)),
        decreases codes@.len() - i,
    {
        assert(codes@.take(i + 1).drop_last() =~= codes@.take(i as int));
        if codes[i] == 0 {
            removed = removed + 1;
        }
        i = i + 1;
    }
    assert(codes@.take(codes@.len() as int) =~= codes@);
    removed
}

/// The code of the first deletion that failed; zero where none did.
pub open spec fn first_failure(codes: Seq<u32>) -> u32
    decreases codes.len(),
{
    if codes.len() == 0 {
        0
    } else if codes[0] != 0 {
        codes[0]
    } else {
        first_failure(codes.skip(1))
    }
}

/// What a cleanup is answered with: the code of the first deletion that failed, or zero.
pub fn cleanup_code(codes: &Vec<u32>) -> (code: u32)
    ensures
        code == first_failure(codes@),
        code == 0 <==> forall|k: int| 0 <= k < codes@.len() ==> #[trigger] codes@[k] == 0,
{
    let mut i: usize = 0;
    assert(codes@.skip(0) =~= codes@);
    while i < codes.len()
        invariant
            i <= codes@.len(),
            first_failure(codes@) == first_failure(codes@.skip(i as int)),
            forall|k: int| 0 <= k < i ==> #[trigger] codes@[k] == 0,
        decreases codes@.len() - i,
    {
        if codes[i] != 0 {
            return codes[i];
        }
        assert(codes@.skip(i as int).skip(1) =~= codes@.skip(i + 1));
        i = i + 1;
    }
    0
}

/// An overlay route as found in the table.
#[derive(Debug, Clone, Copy, PartialEq, Eq, Structural)]
pub struct OverlayRow {
    pub if_index: u32,
    pub if_luid: u64,
    pub prefix: Ipv4Addr,
    pub prefix_len: u8,
    /// Seconds that the row is still valid; zero once it has expired.
    pub valid_lifetime: u32,
}

/// What matters of a row.
pub open spec fn overlay_of(row: RouteRow) -> OverlayRow {
    OverlayRow {
        if_index: row.if_index,
        if_luid: row.if_luid,
        prefix: from_net_order(row.destination),
        prefix_len: row.prefix_len,
        valid_lifetime: row.valid_lifetime,
    }
}

/// The overlay routes through `ip`, in the order of the table.
pub open spec fn overlay_rows(rows: Seq<RouteRow>, ip: Ipv4Addr) -> Seq<OverlayRow> {
    overlay_positions(rows, ip).map_values(|i: int| overlay_of(rows[i]))
}

/// Lists the overlay routes through `ip`, in the order of the table.
pub fn scan_overlay_rows(rows: &Vec<RouteRow>, ip: Ipv4Addr) -> (out: Vec<OverlayRow>)
    ensures
        out@ == overlay_rows(rows@, ip),
{
    let at = scan_overlay_rows_raw(rows, ip);
    let mut out: Vec<OverlayRow> = Vec::new();
    let mut k: usize = 0;
    while k < at.len()
        invariant
            k <= at@.len(),
            out@.len() == k,
            forall|j: int| 0 <= j < at@.len() ==> #[trigger] at@[j] < rows@.len(),
            forall|j: int| 0 <= j < k ==> #[trigger] out@[j] == overlay_of(rows@[at@[j] as int]),
        decreases at@.len() - k,
    {
        let row = rows[at[k]];
        out.push(
            OverlayRow {
                if_index: row.if_index,
                if_luid: row.if_luid,
                prefix: ipv4_from_net_order(row.destination),
                prefix_len: row.prefix_len,
                valid_lifetime: row.valid_lifetime,
            },
        );
        k = k + 1;
    }
    proof {
        let p = overlay_positions(rows@, ip);
        assert forall|j: int| 0 <= j < p.len() implies #[trigger] out@[j] == overlay_rows(
            rows@,
            ip,
        )[j] by {
            assert(at@.map_values(|i: usize| i as int)[j] == p[j]);
        }
        assert(at@.map_values(|i: usize| i as int).len() == at@.len());
        assert(out@ =~= overlay_rows(rows@, ip));
    }
    out
}

/// Whether a route of prefix length one and the given prefix takes part in forwarding.
pub open spec fn covers(row: OverlayRow, prefix: Ipv4Addr) -> bool {
    row.prefix_len == 1 && row.prefix == prefix && row.valid_lifetime != 0
}

/// Whether the row takes part in forwarding: an expired one does not.
pub fn is_effective(row: &OverlayRow) -> (r: bool)
    ensures
        r == (row.valid_lifetime != 0),
{
    row.valid_lifetime != 0
}

/// The first route that covers the prefix.
pub open spec fn first_covering(rows: Seq<OverlayRow>, prefix: Ipv4Addr) -> Option<OverlayRow>
    decreases rows.len(),
{
    if rows.len() == 0 {
        None
    } else if covers(rows[0], prefix) {
        Some(rows[0])
    } else {
        first_covering(rows.skip(1), prefix)
    }
}

fn find_covering(rows: &Vec<OverlayRow>, prefix: Ipv4Addr) -> (out: Option<OverlayRow>)
    ensures
        out == first_covering(rows@, prefix),
{
    let mut i: usize = 0;
    assert(rows@.skip(0) =~= rows@);
    while i < rows.len()
        invariant
            i <= rows@.len(),
            first_covering(rows@, prefix) == first_covering(rows@.skip(i as int), prefix),
        decreases rows@.len() - i,
    {
        if rows[i].prefix_len == 1 && rows[i].prefix == prefix && is_effective(&rows[i]) {
            return Some(rows[i]);
        }
        assert(rows@.skip(i as int).skip(1) =~= rows@.skip(i + 1));
        i = i + 1;
    }
    None
}

fn is_up(up: &Vec<u32>, if_index: u32) -> (r: bool)
    ensures
        r == up@.contains(if_index),
{
    let mut i: usize = 0;
    while i < up.len()
        invariant
            i <= up@.len(),
            forall|k: int| 0 <= k < i ==> up@[k] != if_index,
        decreases up@.len() - i,
    {
        if up[i] == if_index {
            return true;
        }
        i = i + 1;
    }
    false
}

/// The handle of two overlay routes through `ip`.
pub open spec fn overlay_handle(
    ip: Ipv4Addr,
    main_index: u32,
    main_luid: u64,
    extra_index: u32,
    extra_luid: u64,
) -> HandleView {
    HandleView {
        mode: SwitchMode::RouteOverlay,
        if_index: Some(main_index),
        if_luid: Some(main_luid),
        destination_prefix: Some(MAIN_PREFIX@),
        next_hop: Some(IpAddr::V4(ip)),
        adapter_id: None,
        extra_routes: seq![
            HandleRouteView {
                destination_prefix: EXTRA_PREFIX@,
                if_index: extra_index,
                if_luid: extra_luid,
            },
        ],
    }
}

fn make_handle(
    ip: Ipv4Addr,
    main_index: u32,
    main_luid: u64,
    extra_index: u32,
    extra_luid: u64,
) -> (h: SwitchHandle)
    ensures
        h@ == overlay_handle(ip, main_index, main_luid, extra_index, extra_luid),
{
    let mut extra_routes: Vec<HandleRoute> = Vec::new();
    extra_routes.push(
        HandleRoute {
            destination_prefix: EXTRA_PREFIX.to_owned(),
            if_index: extra_index,
            if_luid: extra_luid,
        },
    );
    let h = SwitchHandle {
        mode: SwitchMode::RouteOverlay,
        if_index: Some(main_index),
        if_luid: Some(main_luid),
        destination_prefix: Some(MAIN_PREFIX.to_owned()),
        next_hop: Some(IpAddr::V4(ip)),
        adapter_id: None,
        extra_routes,
    };
    assert(h@.extra_routes =~= overlay_handle(
        ip,
        main_index,
        main_luid,
        extra_index,
        extra_luid,
    ).extra_routes);
    h
}

/// The handle of the overlay that is in effect already, given the overlay routes and
/// the interfaces that are up.
pub open spec fn existing_handle(rows: Seq<OverlayRow>, up: Seq<u32>, ip: Ipv4Addr) -> Option<
    HandleView,
> {
    match (first_covering(rows, zero_addr()), first_covering(rows, half_addr())) {
        (Some(m), Some(e)) => if up.contains(m.if_index) && up.contains(e.if_index) {
            Some(overlay_handle(ip, m.if_index, m.if_luid, e.if_index, e.if_luid))
        } else {
            None
        },
        _ => None,
    }
}

/// Whether the routes of a handle are in effect.
pub open spec fn handle_active(h: HandleView, rows: Seq<RouteRow>, up: Seq<u32>) -> bool {
    match h.next_hop {
        Some(IpAddr::V4(ip)) => {
            &&& half_active(h.if_index, overlay_rows(rows, ip), up, zero_addr())
            &&& half_active(h.if_index, overlay_rows(rows, ip), up, half_addr())
        },
        _ => false,
    }
}

/// Whether some route covers the prefix on an interface that is up, the given one if
/// one is given.
pub open spec fn half_active(
    if_index: Option<u32>,
    rows: Seq<OverlayRow>,
    up: Seq<u32>,
    prefix: Ipv4Addr,
) -> bool {
    exists|k: int|
        0 <= k < rows.len() && covers(#[trigger] rows[k], prefix) && up.contains(rows[k].if_index)
            && (if_index matches Some(i) ==> rows[k].if_index == i)
}

fn check_half(if_index: Option<u32>, rows: &Vec<OverlayRow>, up: &Vec<u32>, prefix: Ipv4Addr) -> (r:
    bool)
    ensures
        r == half_active(if_index, rows@, up@, prefix),
{
    let mut k: usize = 0;
    while k < rows.len()
        invariant
            k <= rows@.len(),
            forall|j: int|
                0 <= j < k ==> !(covers(#[trigger] rows@[j], prefix) && up@.contains(
                    rows@[j].if_index,
                ) && (if_index matches Some(i) ==> rows@[j].if_index == i)),
        decreases rows@.len() - k,
    {
        let row = rows[k];
        let here = match if_index {
            Some(i) => row.if_index == i,
            None => true,
        };
        if row.prefix_len == 1 && row.prefix == prefix && is_effective(&row) && here && is_up(
            up,
            row.if_index,
        ) {
            assert(covers(rows@[k as int], prefix));
            return true;
        }
        k = k + 1;
    }
    false
}

// ---------------------------------------------------------------------------
// Enabling
// ---------------------------------------------------------------------------

/// Which of the two routes.
#[derive(Debug, Clone, Copy, PartialEq, Eq, Structural)]
pub enum Half {
    Lower,
    Upper,
}

/// How far adding a route has come.
#[derive(Debug, Clone, Copy, PartialEq, Eq, Structural)]
pub enum Attempt {
    /// The route is being created.
    First,
    /// A leftover of the same name is being deleted.
    Clearing,
    /// The route is being created once more.
    Second,
}

/// How far enabling has come.
#[derive(Debug, Clone, Copy, PartialEq, Eq, Structural)]
pub enum OverlayPhase {
    /// The interface that reaches the bypass router is being looked up.
    Resolving,
    /// Leftover routes are being removed.
    Cleaning,
    /// A route is being added.
    Adding(Half, Attempt),
    /// What was added is being removed because of the code.
    Reverting(u32),
    /// There is nothing more to do.
    Finished,
}

/// Enabling the overlay.
#[derive(Debug, Clone, Copy, PartialEq, Eq, Structural)]
pub struct OverlayEnable {
    pub bypass_ip: Ipv4Addr,
    pub metric: u32,
    pub if_index: u32,
    pub if_luid: u64,
    pub phase: OverlayPhase,
}

/// What the host has to do for the overlay.
#[derive(Debug)]
pub enum OverlayAction {
    /// Find the interface that reaches the address.
    ResolveInterface(Ipv4Addr),
    /// Delete all overlay routes through the address, and answer with the first code that
    /// is not zero, or zero.
    Cleanup(Ipv4Addr),
    /// Create the route.
    Create(RouteRow),
    /// Delete the route.
    Delete(RouteRow),
    /// Enabling is over.
    Finish(Result<SwitchHandle, CoreError>),
}

/// An action by its contents.
pub enum OverlayActionView {
    ResolveInterface(Ipv4Addr),
    Cleanup(Ipv4Addr),
    Create(RouteRow),
    Delete(RouteRow),
    Finish(Result<HandleView, ErrorView>),
}

impl View for OverlayAction {
    type V = OverlayActionView;

    open spec fn view(&self) -> OverlayActionView {
        match *self {
            OverlayAction::ResolveInterface(ip) => OverlayActionView::ResolveInterface(ip),
            OverlayAction::Cleanup(ip) => OverlayActionView::Cleanup(ip),
            OverlayAction::Create(row) => OverlayActionView::Create(row),
            OverlayAction::Delete(row) => OverlayActionView::Delete(row),
            OverlayAction::Finish(r) => OverlayActionView::Finish(
                match r {
                    Ok(h) => Ok(h@),
                    Err(e) => Err(e@),
                },
            ),
        }
    }
}

/// What the host answers.
#[derive(Debug, Clone, Copy, PartialEq, Eq, Structural)]
pub enum OverlayReply {
    /// The index and the identifier of the interface.
    Interface(u32, u64),
    /// The code that the system returned; zero is success.
    Code(u32),
}

/// The error of an address that nothing reaches.
pub open spec fn unreachable_error(ip: Ipv4Addr, code: u32) -> ErrorView {
    ErrorView::Network(
        "找不到到 "@ + v4_text(ip) + " 的路由（旁路由地址不可达？）: 0x"@ + hex(code as nat),
    )
}

/// The error of a route that cannot be created.
pub open spec fn create_error(code: u32) -> ErrorView {
    ErrorView::Network(
        "CreateIpForwardEntry2 失败: 0x"@ + hex(code as nat) + "（Windows 错误码 "@ + dec(
            code as nat,
        ) + "）"@,
    )
}

/// The error of a route that cannot be deleted.
pub open spec fn delete_error(code: u32) -> ErrorView {
    ErrorView::Network("DeleteIpForwardEntry2 失败: 0x"@ + hex(code as nat))
}

impl OverlayEnable {
    /// The row of one of the routes.
    pub open spec fn row(self, half: Half) -> RouteRow {
        row_of(
            self.if_luid,
            self.if_index,
            match half {
                Half::Lower => zero_addr(),
                Half::Upper => half_addr(),
            },
            1,
            self.bypass_ip,
            self.metric,
        )
    }

    /// The handle of both routes.
    pub open spec fn handle(self) -> HandleView {
        overlay_handle(self.bypass_ip, self.if_index, self.if_luid, self.if_index, self.if_luid)
    }

    /// What follows an answer: the next state and the next action.
    pub open spec fn stepped(self, reply: OverlayReply) -> (OverlayEnable, Option<
        OverlayActionView,
    >) {
        match (self.phase, reply) {
            (OverlayPhase::Resolving, OverlayReply::Interface(if_index, if_luid)) => (
                OverlayEnable { if_index, if_luid, phase: OverlayPhase::Cleaning, ..self },
                Some(OverlayActionView::Cleanup(self.bypass_ip)),
            ),
            (OverlayPhase::Resolving, OverlayReply::Code(code)) => (
                OverlayEnable { phase: OverlayPhase::Finished, ..self },
                Some(OverlayActionView::Finish(Err(unreachable_error(self.bypass_ip, code)))),
            ),
            (OverlayPhase::Cleaning, OverlayReply::Code(_)) => self.adding(
                Half::Lower,
                Attempt::First,
            ),
            (OverlayPhase::Adding(half, attempt), OverlayReply::Code(code)) => match attempt {
                Attempt::Clearing => self.adding(half, Attempt::Second),
                _ => if code == 0 {
                    match half {
                        Half::Lower => self.adding(Half::Upper, Attempt::First),
                        Half::Upper => (
                            OverlayEnable { phase: OverlayPhase::Finished, ..self },
                            Some(OverlayActionView::Finish(Ok(self.handle()))),
                        ),
                    }
                } else if attempt == Attempt::First {
                    self.adding(half, Attempt::Clearing)
                } else {
                    (
                        OverlayEnable { phase: OverlayPhase::Reverting(code), ..self },
                        Some(OverlayActionView::Cleanup(self.bypass_ip)),
                    )
                },
            },
            (OverlayPhase::Reverting(cause), OverlayReply::Code(_)) => (
                OverlayEnable { phase: OverlayPhase::Finished, ..self },
                Some(OverlayActionView::Finish(Err(create_error(cause)))),
            ),
            _ => (self, None),
        }
    }

    /// The action of an attempt to add a route.
    pub open spec fn adding(self, half: Half, attempt: Attempt) -> (OverlayEnable, Option<
        OverlayActionView,
    >) {
        (
            OverlayEnable { phase: OverlayPhase::Adding(half, attempt), ..self },
            Some(
                if attempt == Attempt::Clearing {
                    OverlayActionView::Delete(self.row(half))
                } else {
                    OverlayActionView::Create(self.row(half))
                },
            ),
        )
    }

    fn add_route(&mut self, half: Half, attempt: Attempt) -> (a: OverlayAction)
        ensures
            (*final(self), Some(a@)) == old(self).adding(half, attempt),
    {
        let dest = match half {
            Half::Lower => unspecified(),
            Half::Upper => upper_half(),
        };
        let row = build_row(self.if_luid, self.if_index, dest, 1, self.bypass_ip, self.metric);
        self.phase = OverlayPhase::Adding(half, attempt);
        if attempt == Attempt::Clearing {
            OverlayAction::Delete(row)
        } else {
            OverlayAction::Create(row)
        }
    }

    /// Takes an answer in and says what to do next. A route that cannot be created is
    /// tried once more after a leftover of the same name has been deleted; if that does
    /// not help, everything added so far is removed. An answer that does not suit what
    /// was asked is ignored.
    pub fn step(&mut self, reply: OverlayReply) -> (action: Option<OverlayAction>)
        ensures
            (*final(self), action_view(action)) == old(self).stepped(reply),
    {
        match (self.phase, reply) {
            (OverlayPhase::Resolving, OverlayReply::Interface(if_index, if_luid)) => {
                self.if_index = if_index;
                self.if_luid = if_luid;
                self.phase = OverlayPhase::Cleaning;
                Some(OverlayAction::Cleanup(self.bypass_ip))
            },
            (OverlayPhase::Resolving, OverlayReply::Code(code)) => {
                self.phase = OverlayPhase::Finished;
                let ip = ipv4_text(self.bypass_ip);
                let number = hex_text(code);
                let text = concat4(
                    "找不到到 ",
                    ip.as_str(),
                    " 的路由（旁路由地址不可达？）: 0x",
                    number.as_str(),
                );
                Some(OverlayAction::Finish(Err(CoreError::Network(text))))
            },
            (OverlayPhase::Cleaning, OverlayReply::Code(_)) => Some(
                self.add_route(Half::Lower, Attempt::First),
            ),
            (OverlayPhase::Adding(half, attempt), OverlayReply::Code(code)) => {
                if attempt == Attempt::Clearing {
                    return Some(self.add_route(half, Attempt::Second));
                }
                if code == 0 {
                    return match half {
                        Half::Lower => Some(self.add_route(Half::Upper, Attempt::First)),
                        Half::Upper => {
                            self.phase = OverlayPhase::Finished;
                            let h = make_handle(
                                self.bypass_ip,
                                self.if_index,
                                self.if_luid,
                                self.if_index,
                                self.if_luid,
                            );
                            Some(OverlayAction::Finish(Ok(h)))
                        },
                    };
                }
                if attempt == Attempt::First {
                    return Some(self.add_route(half, Attempt::Clearing));
                }
                self.phase = OverlayPhase::Reverting(code);
                Some(OverlayAction::Cleanup(self.bypass_ip))
            },
            (OverlayPhase::Reverting(cause), OverlayReply::Code(_)) => {
                self.phase = OverlayPhase::Finished;
                Some(OverlayAction::Finish(Err(create_failure(cause))))
            },
            _ => None,
        }
    }
}

fn create_failure(code: u32) -> (e: CoreError)
    ensures
        e@ == create_error(code),
{
    let number = hex_text(code);
    let plain = dec_text(code as u64);
    let mut text = concat4(
        "CreateIpForwardEntry2 失败: 0x",
        number.as_str(),
        "（Windows 错误码 ",
        plain.as_str(),
    );
    text.append("）");
    CoreError::Network(text)
}

/// An optional action by its contents.
pub open spec fn action_view(a: Option<OverlayAction>) -> Option<OverlayActionView> {
    match a {
        Some(x) => Some(x@),
        None => None,
    }
}

// ---------------------------------------------------------------------------
// Disabling
// ---------------------------------------------------------------------------

/// The rows to delete for a handle: the first has to go, the others as well as can be.
#[derive(Debug)]
pub struct DisablePlan {
    pub main: RouteRow,
    pub extras: Vec<RouteRow>,
}

/// The rows of the further routes whose prefixes can be read.
pub open spec fn extra_rows(routes: Seq<HandleRouteView>, ip: Ipv4Addr) -> Seq<RouteRow>
    decreases routes.len(),
{
    if routes.len() == 0 {
        seq![]
    } else {
        let front = extra_rows(routes.drop_last(), ip);
        let r = routes.last();
        match prefix_of(r.destination_prefix) {
            Some((dest, len)) => front.push(row_of(r.if_luid, r.if_index, dest, len, ip, 0)),
            None => front,
        }
    }
}

/// The row of the main route of a handle; 0.0.0.0/1 where the handle does not say.
pub open spec fn main_row(h: HandleView, if_luid: u64, ip: Ipv4Addr) -> RouteRow {
    let (dest, len) = match h.destination_prefix {
        Some(p) => match prefix_of(p) {
            Some(d) => d,
            None => (zero_addr(), 1u8),
        },
        None => (zero_addr(), 1u8),
    };
    row_of(
        if_luid,
        match h.if_index {
            Some(i) => i,
            None => 0,
        },
        dest,
        len,
        ip,
        0,
    )
}

/// The overlay strategy.
#[derive(Debug, Clone, Copy, PartialEq, Eq, Structural)]
pub struct RouteOverlayStrategy {
    /// The metric of the routes. With a prefix of length one they win whatever it is.
    pub metric: u32,
}

impl Default for RouteOverlayStrategy {
    fn default() -> (s: RouteOverlayStrategy)
        ensures
            s.metric == ROUTE_METRIC,
    {
        RouteOverlayStrategy::new()
    }
}

impl RouteOverlayStrategy {
    /// The strategy with the usual metric.
    pub fn new() -> (s: RouteOverlayStrategy)
        ensures
            s.metric == ROUTE_METRIC,
    {
        RouteOverlayStrategy { metric: ROUTE_METRIC }
    }

    /// What the strategy puts right at startup by itself: nothing. The controller does,
    /// because it knows what is expected.
    pub fn reconcile_on_startup(&self) -> (a: ReconcileAction)
        ensures
            a == ReconcileAction::NoAction,
    {
        ReconcileAction::NoAction
    }

    /// Begins to enable the overlay; only an IPv4 router can be used.
    pub fn enable(&self, target: &BypassTarget) -> (r: Result<
        (OverlayEnable, OverlayAction),
        CoreError,
    >)
        ensures
            match target@.bypass_ip {
                IpAddr::V4(ip) => {
                    &&& r matches Ok(p)
                    &&& p.0 == (OverlayEnable {
                        bypass_ip: ip,
                        metric: self.metric,
                        if_index: 0,
                        if_luid: 0,
                        phase: OverlayPhase::Resolving,
                    })
                    &&& p.1@ == OverlayActionView::ResolveInterface(ip)
                },
                IpAddr::V6(_) => {
                    &&& r matches Err(e)
                    &&& e@ == ErrorView::Network("仅支持 IPv4 旁路由地址"@)
                },
            },
    {
        match target.bypass_ip {
            IpAddr::V4(ip) => {
                let machine = OverlayEnable {
                    bypass_ip: ip,
                    metric: self.metric,
                    if_index: 0,
                    if_luid: 0,
                    phase: OverlayPhase::Resolving,
                };
                Ok((machine, OverlayAction::ResolveInterface(ip)))
            },
            IpAddr::V6(_) => Err(CoreError::Network("仅支持 IPv4 旁路由地址".to_owned())),
        }
    }

    /// The rows to delete for a handle.
    pub fn disable(&self, handle: &SwitchHandle) -> (r: Result<DisablePlan, CoreError>)
        ensures
            match (handle@.if_luid, handle@.next_hop) {
                (Some(if_luid), Some(IpAddr::V4(ip))) => {
                    &&& r matches Ok(plan)
                    &&& plan.main == main_row(handle@, if_luid, ip)
                    &&& plan.extras@ == extra_rows(handle@.extra_routes, ip)
                },
                (Some(_), Some(IpAddr::V6(_))) => {
                    &&& r matches Err(e)
                    &&& e@ == ErrorView::Other("句柄含非 IPv4 下一跳"@)
                },
                _ => {
                    &&& r matches Err(e)
                    &&& e@ == ErrorView::Other("句柄缺少路由条目信息"@)
                },
            },
    {
        match (handle.if_luid, handle.next_hop) {
            (Some(if_luid), Some(IpAddr::V4(ip))) => {
                let prefix = match &handle.destination_prefix {
                    Some(p) => parse_v4_prefix(p.as_str()),
                    None => None,
                };
                let (dest, len) = match prefix {
                    Some(d) => d,
                    None => (unspecified(), 1u8),
                };
                let if_index: u32 = match handle.if_index {
                    Some(i) => i,
                    None => 0,
                };
                let main = build_row(if_luid, if_index, dest, len, ip, 0);
                let mut extras: Vec<RouteRow> = Vec::new();
                let routes = &handle.extra_routes;
                let mut i: usize = 0;
                let ghost all = handle@.extra_routes;
                while i < routes.len()
                    invariant
                        i <= routes@.len(),
                        all.len() == routes@.len(),
                        forall|k: int| 0 <= k < all.len() ==> #[trigger] all[k] == routes@[k]@,
                        extras@ == extra_rows(all.take(i as int), ip),
                    decreases routes@.len() - i,
                {
                    assert(all.take(i + 1).drop_last() =~= all.take(i as int));
                    assert(all[i as int] == routes@[i as int]@);
                    let route = &routes[i];
                    match parse_v4_prefix(route.destination_prefix.as_str()) {
                        Some((dest, len)) => {
                            extras.push(build_row(route.if_luid, route.if_index, dest, len, ip, 0));
                        },
                        None => {},
                    }
                    i = i + 1;
                }
                assert(all.take(all.len() as int) =~= all);
                Ok(DisablePlan { main, extras })
            },
            (Some(_), Some(IpAddr::V6(_))) => Err(
                CoreError::Other("句柄含非 IPv4 下一跳".to_owned()),
            ),
            _ => Err(CoreError::Other("句柄缺少路由条目信息".to_owned())),
        }
    }

    /// What disabling comes to, by the code of the main route's deletion. The codes of
    /// the further deletions do not matter.
    pub fn disabled(&self, main_code: u32) -> (r: Result<(), CoreError>)
        ensures
            r is Ok <==> main_code == 0,
            r matches Err(e) ==> e@ == delete_error(main_code),
    {
        if main_code == 0 {
            Ok(())
        } else {
            let number = hex_text(main_code);
            Err(CoreError::Network(concat2("DeleteIpForwardEntry2 失败: 0x", number.as_str())))
        }
    }

    /// Whether the routes of a handle are in effect, given the route table and the
    /// interfaces that are up.
    pub fn is_active(&self, handle: &SwitchHandle, rows: &Vec<RouteRow>, up: &Vec<u32>) -> (r: bool)
        ensures
            r == handle_active(handle@, rows@, up@),
    {
        match handle.next_hop {
            Some(IpAddr::V4(ip)) => {
                let found = scan_overlay_rows(rows, ip);
                check_half(handle.if_index, &found, up, unspecified()) && check_half(
                    handle.if_index,
                    &found,
                    up,
                    upper_half(),
                )
            },
            _ => false,
        }
    }

    /// The handle of an overlay through `ip` that is in effect already, given the route
    /// table and the interfaces that are up.
    pub fn existing_handle_for(&self, rows: &Vec<RouteRow>, up: &Vec<u32>, ip: Ipv4Addr) -> (r:
        Option<SwitchHandle>)
        ensures
            match r {
                Some(h) => existing_handle(overlay_rows(rows@, ip), up@, ip) == Some(h@),
                None => existing_handle(overlay_rows(rows@, ip), up@, ip) is None,
            },
    {
        let found = scan_overlay_rows(rows, ip);
        match (find_covering(&found, unspecified()), find_covering(&found, upper_half())) {
            (Some(m), Some(e)) => {
                if is_up(up, m.if_index) && is_up(up, e.if_index) {
                    Some(make_handle(ip, m.if_index, m.if_luid, e.if_index, e.if_luid))
                } else {
                    None
                }
            },
            _ => None,
        }
    }
}

} // verus!
