//! What the operations themselves do: for every call, what its result and what it leaves
//! behind must satisfy.

use vstd::prelude::*;

use crate::adapter_reconfig::{backup_adapter, v4_addresses, AdapterReconfigStrategy, ReconfigPlan};
use crate::addr::{IpAddr, Ipv4Addr};
use crate::controller::{ControlAction, ControlEvent, ControlPhase, Controller};
use crate::error::{CoreError, ErrorView};
use crate::health_monitor::{
    HealthCtx, HealthLoop, HealthParams, HealthState, MonitorAction, TickEvent,
};
use crate::netsh::commands_view;
use crate::protocol::{
    adapters_view, AdapterInfo, AdapterSnapshot, AppConfig, BypassTarget, HealthEventType,
    HealthStatus, RuntimeState, SwitchHandle, SwitchMode, Timestamp,
};
use crate::reconfig_laws::{
    enabling_sets_address_and_servers, is_own_address, restoring_gives_the_address_back,
    restoring_turns_dhcp_on, sets_address, sets_servers, turns_dhcp_on,
};
use crate::restore::{Restore, RestoreAction, RestorePhase, RestoreReply};
use crate::route_overlay::{DisablePlan, OverlayAction, OverlayEnable, RouteOverlayStrategy};
use crate::switch_laws::{is_acceptable, is_first, keeps, lemma_first_is_found, lemma_none_is_found};

verus! {

// ---------------------------------------------------------------------------
// The controller
// ---------------------------------------------------------------------------

/// Whether a monitor is set on the switch that the configuration describes.
pub open spec fn is_set_on(p: HealthParams, c: AppConfig, mode: SwitchMode) -> bool {
    &&& p.mode == mode
    &&& p.target.adapter_id@ == c.adapter_id@
    &&& p.target.bypass_ip == c.bypass_ip
    &&& p.target.dns is Some == c.dns_override is Some
    &&& p.target.dns is Some ==> p.target.dns->0@ == c.dns_override->0@
    &&& p.target.subnet_mask == c.subnet_mask
    &&& p.target.static_ip == c.static_ip
    &&& p.interval_secs == if c.health_check_interval_secs == 0 {
        1
    } else {
        c.health_check_interval_secs as int
    }
    &&& p.threshold == if c.failure_threshold == 0 {
        1
    } else {
        c.failure_threshold as int
    }
    &&& p.auto_reenable == c.auto_reenable_after_recovery
}

/// Once a switch is recorded, in whichever mode it was made, a new monitor watches it.
pub proof fn recorded_switch_is_watched(
    c: &mut Controller,
    mode: SwitchMode,
    now: Timestamp,
    a: Option<ControlAction>,
)
    requires
        old(c).phase == ControlPhase::SavingEnabled(mode),
        call_ensures(Controller::step, (c, ControlEvent::Done(Ok(())), now), a),
    ensures
        final(c).monitor matches Some(p) && is_set_on(p, old(c).config, mode) && p.generation
            == final(c).ctx.generation,
        final(c).ctx.generation != old(c).ctx.generation,
        final(c).ctx.runtime == old(c).ctx.runtime,
        final(c).phase is Ready,
        a matches Some(ControlAction::Finish(Ok(_))),
{
}

/// A switch that was made is held and written, in whichever mode.
pub proof fn made_switch_is_held_and_written(
    c: &mut Controller,
    mode: SwitchMode,
    h: SwitchHandle,
    now: Timestamp,
    a: Option<ControlAction>,
)
    requires
        old(c).phase == ControlPhase::Enabling(mode),
        call_ensures(Controller::step, (c, ControlEvent::Enabled(Ok(h)), now), a),
    ensures
        final(c).ctx.handle matches Some(x) && x@ == h@,
        final(c).ctx.runtime == (RuntimeState {
            is_enabled: true,
            current_mode: Some(mode),
            health: HealthStatus::Healthy,
            last_updated: now,
        }),
        final(c).ctx.generation == old(c).ctx.generation,
        final(c).config@ == old(c).config@,
        final(c).phase == ControlPhase::SavingEnabled(mode),
        a matches Some(ControlAction::SaveRuntime(rs)) && rs == final(c).ctx.runtime,
{
}

/// While the bypass is in effect, a written configuration that aims at another switch, be it
/// only in another mode, has the switch in effect undone.
pub proof fn another_goal_undoes_the_switch(
    c: &mut Controller,
    new: AppConfig,
    h: SwitchHandle,
    now: Timestamp,
    a: Option<ControlAction>,
)
    requires
        old(c).phase == ControlPhase::SavingConfig(new),
        old(c).ctx.runtime.is_enabled,
        old(c).ctx.handle == Some(h),
        is_acceptable(new@),
        new.switch_mode != old(c).config.switch_mode || new.adapter_id@
            != old(c).config.adapter_id@ || new.bypass_ip != old(c).config.bypass_ip
            || new@.dns_override != old(c).config@.dns_override || new.subnet_mask
            != old(c).config.subnet_mask || new.static_ip != old(c).config.static_ip,
        call_ensures(Controller::step, (c, ControlEvent::Done(Ok(())), now), a),
    ensures
        a matches Some(ControlAction::DisableStrategy(x)) && x@ == h@,
        final(c).config@ == new@,
        final(c).ctx.handle is None,
        final(c).monitor is None,
{
}

/// While the bypass is in effect, a written configuration that aims at the same switch leaves
/// it alone; the monitor is restarted exactly if it is to watch otherwise.
pub proof fn same_goal_leaves_the_switch(
    c: &mut Controller,
    new: AppConfig,
    now: Timestamp,
    a: Option<ControlAction>,
)
    requires
        old(c).phase == ControlPhase::SavingConfig(new),
        old(c).ctx.runtime.is_enabled,
        old(c).ctx.handle is Some,
        new.switch_mode == old(c).config.switch_mode,
        new.adapter_id@ == old(c).config.adapter_id@,
        new.bypass_ip == old(c).config.bypass_ip,
        new@.dns_override == old(c).config@.dns_override,
        new.subnet_mask == old(c).config.subnet_mask,
        new.static_ip == old(c).config.static_ip,
        call_ensures(Controller::step, (c, ControlEvent::Done(Ok(())), now), a),
    ensures
        a matches Some(ControlAction::Finish(Ok(_))),
        final(c).config@ == new@,
        final(c)@.ctx.handle == old(c)@.ctx.handle,
        final(c).ctx.runtime == old(c).ctx.runtime,
        ({
            let same = new.health_check_interval_secs == old(c).config.health_check_interval_secs
                && new.failure_threshold == old(c).config.failure_threshold
                && new.auto_reenable_after_recovery == old(c).config.auto_reenable_after_recovery;
            &&& same ==> final(c)@.monitor == old(c)@.monitor && final(c).ctx.generation
                == old(c).ctx.generation
            &&& !same ==> final(c).ctx.generation != old(c).ctx.generation && (
            final(c).monitor matches Some(p) && is_set_on(p, new, new.switch_mode))
        }),
{
    let (x, y) = (old(c).config@.target(), new@.target());
    assert(x == y);
}

/// Disabling undoes the switch in effect and stops its monitor at once, whatever the mode.
pub proof fn disabling_undoes_the_switch_in_effect(
    c: &mut Controller,
    h: SwitchHandle,
    now: Timestamp,
    a: Option<ControlAction>,
)
    requires
        old(c).phase is Ready,
        old(c).ctx.handle == Some(h),
        call_ensures(Controller::disable, (c, now), a),
    ensures
        a matches Some(ControlAction::DisableStrategy(x)) && x@ == h@,
        final(c).ctx.handle is None,
        final(c).monitor is None,
        final(c).ctx.generation != old(c).ctx.generation,
        final(c).ctx.runtime == old(c).ctx.runtime,
        final(c).config@ == old(c).config@,
{
}

/// Enabling asks for the overlay at once, and for the adapters first where the adapter is to
/// be reconfigured.
pub proof fn enabling_begins_by_mode(c: &mut Controller, now: Timestamp, a: Option<ControlAction>)
    requires
        old(c).phase is Ready,
        old(c).ctx.handle is None,
        old(c).config.adapter_id@.len() > 0,
        old(c).config.bypass_ip is V4,
        old(c).config.bypass_ip != IpAddr::V4(Ipv4Addr { a: 0, b: 0, c: 0, d: 0 }),
        call_ensures(Controller::enable, (c, now), a),
    ensures
        old(c).config.switch_mode is RouteOverlay ==> (a matches Some(
            ControlAction::EnableStrategy(m, t),
        ) && m is RouteOverlay && t.bypass_ip == old(c).config.bypass_ip && t.adapter_id@
            == old(c).config.adapter_id@),
        old(c).config.switch_mode is AdapterReconfig ==> a matches Some(
            ControlAction::ListAdapters,
        ),
        final(c)@.ctx == old(c)@.ctx,
        final(c)@.monitor == old(c)@.monitor,
        final(c)@.config == old(c)@.config,
{
}

/// A new controller has what was stored, and switches and watches nothing.
pub proof fn new_controller_has_what_was_stored(
    config: AppConfig,
    runtime: RuntimeState,
    c: Controller,
)
    requires
        call_ensures(Controller::new, (config, runtime), c),
    ensures
        c.config@ == config@,
        c.ctx.runtime == runtime,
        c.ctx.handle is None,
        c.ctx.generation == 0,
        c.monitor is None,
        c.phase is Ready,
{
}

// ---------------------------------------------------------------------------
// The monitor
// ---------------------------------------------------------------------------

/// A monitor begins healthy and at rest.
pub proof fn monitor_begins_healthy(l: HealthLoop)
    requires
        call_ensures(HealthLoop::start, (), l),
    ensures
        l.state is Healthy,
        l.phase is Ready,
{
}

/// A failed probe short of the threshold is counted, and clients read that very count. The
/// switch stays as it is.
pub proof fn failed_probe_is_counted_and_read(
    l: &mut HealthLoop,
    c: &mut HealthCtx,
    p: HealthParams,
    ev: TickEvent,
    now: Timestamp,
    out: Vec<MonitorAction>,
    n: u32,
)
    requires
        old(l).phase is Probing,
        old(l).state == if n == 0 {
            HealthState::Healthy
        } else {
            HealthState::Degraded(n)
        },
        old(c).generation == p.generation,
        n + 1 < p.threshold,
        ev matches TickEvent::Probed(r) && (r is Err || r == Ok::<_, CoreError>(None::<u32>)),
        call_ensures(HealthLoop::step, (l, c, &p, ev, now), out),
    ensures
        final(c).runtime.health == (HealthStatus::Degraded {
            consecutive_failures: (n + 1) as u32,
        }),
        final(c).runtime.last_updated == now,
        final(c).runtime.is_enabled == old(c).runtime.is_enabled,
        final(c).runtime.current_mode == old(c).runtime.current_mode,
        final(c)@.handle == old(c)@.handle,
        final(c).generation == old(c).generation,
        final(l).state == HealthState::Degraded((n + 1) as u32),
        final(l).phase is Ready,
        out@.len() == 1,
        out@[0] matches MonitorAction::Emit(e) && e.at == now && e.reason is None
            && e.event_type == (HealthEventType::ProbeFailed {
            consecutive_count: (n + 1) as u32,
        }),
{
    assert(crate::health_monitor::monitor_actions_view(out@).len() == out@.len());
    assert(crate::health_monitor::monitor_actions_view(out@)[0] == out@[0]@);
}

/// A failed probe that reaches the threshold has the switch in effect undone.
pub proof fn failed_probe_at_the_threshold_undoes_the_switch(
    l: &mut HealthLoop,
    c: &mut HealthCtx,
    p: HealthParams,
    now: Timestamp,
    out: Vec<MonitorAction>,
    n: u32,
    h: SwitchHandle,
)
    requires
        old(l).phase is Probing,
        old(l).state == if n == 0 {
            HealthState::Healthy
        } else {
            HealthState::Degraded(n)
        },
        old(c).generation == p.generation,
        old(c).handle == Some(h),
        n + 1 == p.threshold,
        call_ensures(HealthLoop::step, (l, c, &p, TickEvent::Probed(Ok(None)), now), out),
    ensures
        out@.len() == 2,
        out@[0] matches MonitorAction::Emit(e) && e.event_type == (HealthEventType::ProbeFailed {
            consecutive_count: p.threshold,
        }),
        out@[1] matches MonitorAction::Disable(x) && x@ == h@,
        final(l).phase is FallingBack,
{
    assert(crate::health_monitor::monitor_actions_view(out@).len() == out@.len());
    assert(crate::health_monitor::monitor_actions_view(out@)[0] == out@[0]@);
    assert(crate::health_monitor::monitor_actions_view(out@)[1] == out@[1]@);
}

/// Once the switch has been undone, clients read that the bypass was given up, and so is it
/// written.
pub proof fn given_up_bypass_is_read_and_written(
    l: &mut HealthLoop,
    c: &mut HealthCtx,
    p: HealthParams,
    r: Result<(), CoreError>,
    now: Timestamp,
    out: Vec<MonitorAction>,
)
    requires
        old(l).phase is FallingBack,
        old(c).generation == p.generation,
        call_ensures(HealthLoop::step, (l, c, &p, TickEvent::Disabled(r), now), out),
    ensures
        final(c).handle is None,
        final(c).runtime == (RuntimeState {
            is_enabled: false,
            current_mode: None,
            health: HealthStatus::Fallback,
            last_updated: now,
        }),
        final(l).state is Fallback,
        final(l).phase is Ready,
        out@.len() == 2,
        out@[0] == MonitorAction::Persist(final(c).runtime),
        out@[1] matches MonitorAction::Emit(e) && e.event_type is AutoFallbackTriggered && e.at
            == now,
{
    assert(crate::health_monitor::monitor_actions_view(out@).len() == out@.len());
    assert(crate::health_monitor::monitor_actions_view(out@)[0] == out@[0]@);
    assert(crate::health_monitor::monitor_actions_view(out@)[1] == out@[1]@);
}

// ---------------------------------------------------------------------------
// Reconfiguring an adapter
// ---------------------------------------------------------------------------

/// Enabling uses the configured name servers whenever there are any, with a fixed address or
/// without, and the router alone where there are none.
pub proof fn configured_servers_are_set(
    s: AdapterReconfigStrategy,
    t: BypassTarget,
    list: Vec<AdapterInfo>,
    i: int,
    router: Ipv4Addr,
    ip: Ipv4Addr,
    r: Result<ReconfigPlan, CoreError>,
)
    requires
        is_first(adapters_view(list@), i, t.adapter_id@),
        t.bypass_ip == IpAddr::V4(router),
        is_own_address(t@, list@[i]@, ip),
        call_ensures(AdapterReconfigStrategy::enable, (&s, &t, &list), r),
    ensures
        r is Ok,
        ({
            let c = commands_view(r->Ok_0.commands@);
            let name = list@[i].name@;
            let mask = match t.subnet_mask {
                Some(m) => m,
                None => Ipv4Addr { a: 255, b: 255, c: 255, d: 0 },
            };
            &&& sets_address(c[0], name, ip, mask, router)
            &&& t.dns is Some && t.dns->0@.len() > 0 ==> sets_servers(
                c,
                1,
                name,
                v4_addresses(t.dns->0@),
            )
            &&& t.dns is None || t.dns->0@.len() == 0 ==> sets_servers(c, 1, name, seq![router])
            &&& r->Ok_0.handle.mode is AdapterReconfig
            &&& r->Ok_0.handle@.adapter_id == Some(t.adapter_id@)
        }),
{
    assert(adapters_view(list@)[i] == list@[i]@);
    enabling_sets_address_and_servers(t@, adapters_view(list@), i, router, ip);
}

/// Restoring an adapter that had a fixed address runs the commands that give it back.
pub proof fn fixed_address_is_given_back(
    m: &mut Restore,
    s: AdapterSnapshot,
    list: Vec<AdapterInfo>,
    i: int,
    ip: Ipv4Addr,
    gateway: Ipv4Addr,
    a: Option<RestoreAction>,
)
    requires
        old(m).phase == RestorePhase::Listing(s),
        !s.is_dhcp_enabled,
        is_first(adapters_view(list@), i, s.adapter_id@),
        s.static_ipv4@.len() > 0 && s.static_ipv4@[0] == IpAddr::V4(ip),
        s.gateway@.len() > 0 && s.gateway@[0] == IpAddr::V4(gateway),
        call_ensures(Restore::step, (m, RestoreReply::Adapters(Ok(list))), a),
    ensures
        final(m).phase is Running,
        a matches Some(RestoreAction::Run(c)) && {
            let v = commands_view(c@);
            let name = list@[i].name@;
            &&& v.len() > 0
            &&& sets_address(
                v[0],
                name,
                ip,
                (Ipv4Addr { a: 255, b: 255, c: 255, d: 0 }),
                gateway,
            )
            &&& s.dns@.len() > 0 ==> sets_servers(v, 1, name, v4_addresses(s.dns@))
            &&& s.dns@.len() == 0 ==> v.len() == 2 && turns_dhcp_on(v[1], name, "dns"@)
        },
{
    assert(adapters_view(list@)[i] == list@[i]@);
    restoring_gives_the_address_back(s@, adapters_view(list@), i, ip, gateway);
}

/// Restoring an adapter that was on DHCP runs the commands that turn it on again.
pub proof fn dhcp_is_given_back(
    m: &mut Restore,
    s: AdapterSnapshot,
    list: Vec<AdapterInfo>,
    i: int,
    a: Option<RestoreAction>,
)
    requires
        old(m).phase == RestorePhase::Listing(s),
        s.is_dhcp_enabled,
        is_first(adapters_view(list@), i, s.adapter_id@),
        call_ensures(Restore::step, (m, RestoreReply::Adapters(Ok(list))), a),
    ensures
        final(m).phase is Running,
        a matches Some(RestoreAction::Run(c)) && {
            let v = commands_view(c@);
            &&& v.len() == 2
            &&& turns_dhcp_on(v[0], list@[i].name@, "address"@)
            &&& turns_dhcp_on(v[1], list@[i].name@, "dns"@)
        },
{
    assert(adapters_view(list@)[i] == list@[i]@);
    restoring_turns_dhcp_on(s@, adapters_view(list@), i);
}

/// Undoing a reconfiguration begins with the backup.
pub proof fn undoing_begins_with_the_backup(s: AdapterReconfigStrategy, r: (Restore, RestoreAction))
    requires
        call_ensures(AdapterReconfigStrategy::disable, (&s,), r) || call_ensures(
            Restore::start,
            (),
            r,
        ),
    ensures
        r.0.phase is Loading,
        r.1 is LoadSnapshot,
{
}

/// A reconfigured adapter counts as such exactly if the handle names one that is connected
/// and has a gateway.
pub proof fn reconfigured_adapter_is_connected(
    s: AdapterReconfigStrategy,
    h: SwitchHandle,
    list: Vec<AdapterInfo>,
    i: int,
    r: bool,
)
    requires
        call_ensures(AdapterReconfigStrategy::is_active, (&s, &h, &list), r),
    ensures
        h.adapter_id is None ==> !r,
        h.adapter_id matches Some(id) ==> {
            &&& is_first(adapters_view(list@), i, id@) ==> r == (list@[i].is_connected
                && list@[i].gateway@.len() > 0)
            &&& (forall|k: int| 0 <= k < list@.len() ==> (#[trigger] list@[k]).id@ != id@) ==> !r
        },
{
    let v = adapters_view(list@);
    match h.adapter_id {
        Some(id) => {
            if is_first(v, i, id@) {
                lemma_first_is_found(v, i, id@);
                assert(v[i] == list@[i]@);
            }
            if forall|k: int| 0 <= k < list@.len() ==> (#[trigger] list@[k]).id@ != id@ {
                assert forall|k: int| 0 <= k < v.len() implies (#[trigger] v[k]).id != id@ by {
                    assert(list@[k].id@ != id@);
                }
                lemma_none_is_found(v, id@);
            }
        },
        None => {},
    }
}

/// The name and the backup are those of the adapter with the identifier; where there is none,
/// that is said.
pub proof fn adapter_is_found_by_its_identifier(
    s: AdapterReconfigStrategy,
    list: Vec<AdapterInfo>,
    id: &str,
    dhcp: Option<bool>,
    i: int,
    name: Result<String, CoreError>,
    backup: Result<AdapterSnapshot, CoreError>,
)
    requires
        call_ensures(AdapterReconfigStrategy::iface_name, (&s, &list, id), name),
        call_ensures(backup_adapter, (&list, id, dhcp), backup),
    ensures
        is_first(adapters_view(list@), i, id@) ==> {
            &&& name matches Ok(n) && n@ == list@[i].name@
            &&& backup matches Ok(b) && keeps(b@, list@[i]@, dhcp)
        },
        (forall|k: int| 0 <= k < list@.len() ==> (#[trigger] list@[k]).id@ != id@) ==> {
            let e = ErrorView::Network("网卡 "@ + id@ + " 不存在"@);
            &&& name matches Err(x) && x@ == e
            &&& backup matches Err(x) && x@ == e
        },
{
    let v = adapters_view(list@);
    if is_first(v, i, id@) {
        lemma_first_is_found(v, i, id@);
        assert(v[i] == list@[i]@);
    }
    if forall|k: int| 0 <= k < list@.len() ==> (#[trigger] list@[k]).id@ != id@ {
        assert forall|k: int| 0 <= k < v.len() implies (#[trigger] v[k]).id != id@ by {
            assert(list@[k].id@ != id@);
        }
        lemma_none_is_found(v, id@);
    }
}

// ---------------------------------------------------------------------------
// The route overlay
// ---------------------------------------------------------------------------

/// Enabling the overlay begins with the interface that reaches the router; only IPv4 will do.
pub proof fn overlay_begins_with_the_interface(
    s: RouteOverlayStrategy,
    t: BypassTarget,
    r: Result<(OverlayEnable, OverlayAction), CoreError>,
)
    requires
        call_ensures(RouteOverlayStrategy::enable, (&s, &t), r),
    ensures
        t.bypass_ip matches IpAddr::V4(ip) ==> {
            &&& r matches Ok(p)
            &&& p.0.bypass_ip == ip
            &&& p.0.metric == s.metric
            &&& p.0.phase is Resolving
            &&& p.1 matches OverlayAction::ResolveInterface(x) && x == ip
        },
        t.bypass_ip is V6 ==> (r matches Err(e) && e@ == ErrorView::Network(
            "仅支持 IPv4 旁路由地址"@,
        )),
{
}

/// Disabling needs the interface and the router of the handle, and says which is missing.
pub proof fn overlay_is_undone_by_its_handle(
    s: RouteOverlayStrategy,
    h: SwitchHandle,
    r: Result<DisablePlan, CoreError>,
)
    requires
        call_ensures(RouteOverlayStrategy::disable, (&s, &h), r),
    ensures
        r is Ok <==> h.if_luid is Some && (h.next_hop matches Some(IpAddr::V4(_))),
        h.if_luid is None || h.next_hop is None ==> (r matches Err(e) && e@ == ErrorView::Other(
            "句柄缺少路由条目信息"@,
        )),
        h.if_luid is Some && (h.next_hop matches Some(IpAddr::V6(_))) ==> (r matches Err(e) && e@
            == ErrorView::Other("句柄含非 IPv4 下一跳"@)),
        r matches Ok(p) ==> p.main.if_luid == h.if_luid->0 && p.main.metric == 0,
{
}

/// Disabling has succeeded exactly if the main route is gone; the code of a failure is told.
pub proof fn main_route_decides(s: RouteOverlayStrategy, code: u32, r: Result<(), CoreError>)
    requires
        call_ensures(RouteOverlayStrategy::disabled, (&s, code), r),
    ensures
        r is Ok <==> code == 0,
        r matches Err(e) ==> e@ == ErrorView::Network(
            "DeleteIpForwardEntry2 失败: 0x"@ + crate::number::hex(code as nat),
        ),
{
}

/// The overlay's routes have the usual metric.
pub proof fn overlay_has_the_usual_metric(s: RouteOverlayStrategy)
    requires
        call_ensures(RouteOverlayStrategy::new, (), s),
    ensures
        s.metric == 5,
{
}

} // verus!
