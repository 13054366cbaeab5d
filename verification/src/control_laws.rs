//! What holds of the controller as a whole.

use vstd::prelude::*;

use crate::adapter_reconfig::{reconfig_handle, snapshot_of};
use crate::addr::{IpAddr, Ipv4Addr};
use crate::controller::{
    config_fault, is_complete, is_router, monitors_differently, next_generation,
    switches_differently, ControlActionView, ControlEventView, ControlView,
};
use crate::error::ErrorView;
use crate::health_laws::replaced_monitor_has_no_effect;
use crate::health_monitor::{stepped, HealthLoop, ParamsView, TickEventView};
use crate::protocol::{
    find_adapter, AdapterView, ConfigView, HandleView, RuntimeState, SwitchMode, Timestamp,
};

verus! {

/// What holds between operations and within them: the health monitor that is to run
/// belongs to the current generation and has usable parameters.
pub open spec fn control_inv(c: ControlView) -> bool {
    c.monitor matches Some(p) ==> {
        &&& p.generation == c.ctx.generation
        &&& p.interval_secs >= 1
        &&& p.threshold >= 1
    }
}

/// A new controller has it.
pub proof fn new_controller_has_inv(config: ConfigView, runtime: RuntimeState)
    ensures
        control_inv(ControlView::initial(config, runtime)),
{
}

/// Every step of the controller keeps it.
pub proof fn steps_keep_inv(c: ControlView, ev: ControlEventView, now: Timestamp)
    requires
        control_inv(c),
    ensures
        control_inv(c.stepped(ev, now).0),
{
}

/// So does every step of a monitor, whichever it is.
pub proof fn monitor_steps_keep_inv(
    c: ControlView,
    l: HealthLoop,
    p: ParamsView,
    ev: TickEventView,
    now: Timestamp,
)
    requires
        control_inv(c),
    ensures
        control_inv(ControlView { ctx: stepped(l, c.ctx, p, ev, now).ctx, ..c }),
{
}

/// Enabling is refused at once, with nothing changed, exactly when the configuration
/// does not say where to send traffic.
pub proof fn incomplete_config_is_refused(c: ControlView, now: Timestamp)
    requires
        c.phase is Ready,
    ensures
        ({
            let (next, action) = c.stepped(ControlEventView::Enable, now);
            let refused = action matches Some(ControlActionView::Finish(Err(_)));
            &&& refused <==> !is_complete(c.config)
            &&& refused ==> next == c
        }),
{
}

/// Enabling the overlay from scratch ends with the new switch in effect, that fact
/// written down, and a health monitor running for it.
pub proof fn enabled_overlay_is_monitored(
    c: ControlView,
    h: HandleView,
    t0: Timestamp,
    t1: Timestamp,
    t2: Timestamp,
)
    requires
        c.phase is Ready,
        is_complete(c.config),
        c.config.switch_mode == SwitchMode::RouteOverlay,
        c.ctx.handle is None,
    ensures
        ({
            let (c1, a1) = c.stepped(ControlEventView::Enable, t0);
            let (c2, a2) = c1.stepped(ControlEventView::Enabled(Ok(h)), t1);
            let (c3, a3) = c2.stepped(ControlEventView::Done(Ok(())), t2);
            &&& a1 == Some(
                ControlActionView::EnableStrategy(SwitchMode::RouteOverlay, c.config.target()),
            )
            &&& a2 == Some(ControlActionView::SaveRuntime(c3.ctx.runtime))
            &&& a3 == Some(ControlActionView::Finish(Ok(())))
            &&& c3.ctx.handle == Some(h)
            &&& c3.ctx.runtime.is_enabled
            &&& c3.ctx.runtime.current_mode == Some(SwitchMode::RouteOverlay)
            &&& c3.monitor matches Some(p)
            &&& p.target == c.config.target()
            &&& p.generation == c3.ctx.generation
            &&& c3.phase is Ready
        }),
{
}

/// Reconfiguring an adapter is always preceded by a backup of its state that has been
/// written: the sequence of actions is list, ask for DHCP, write the backup, switch.
pub proof fn adapter_is_backed_up_before_it_is_changed(
    c: ControlView,
    list: Seq<AdapterView>,
    dhcp: Option<bool>,
    a: AdapterView,
    t0: Timestamp,
    t1: Timestamp,
    t2: Timestamp,
    t3: Timestamp,
)
    requires
        c.phase is Ready,
        is_complete(c.config),
        c.config.switch_mode == SwitchMode::AdapterReconfig,
        c.ctx.handle is None,
        find_adapter(list, c.config.adapter_id) == Some(a),
    ensures
        ({
            let (c1, a1) = c.stepped(ControlEventView::Enable, t0);
            let (c2, a2) = c1.stepped(ControlEventView::Adapters(Ok(list)), t1);
            let (c3, a3) = c2.stepped(ControlEventView::Dhcp(dhcp), t2);
            let (c4, a4) = c3.stepped(ControlEventView::Done(Ok(())), t3);
            &&& a1 == Some(ControlActionView::ListAdapters)
            &&& a2 == Some(ControlActionView::QueryDhcp(c.config.adapter_id))
            &&& a3 == Some(ControlActionView::SaveSnapshot(snapshot_of(a, dhcp)))
            &&& a4 == Some(
                ControlActionView::EnableStrategy(SwitchMode::AdapterReconfig, c.config.target()),
            )
        }),
{
}

/// An adapter is changed only where a backup of it exists: it has just been written, or
/// it was found at startup.
pub proof fn no_change_without_backup(c: ControlView, ev: ControlEventView, now: Timestamp)
    requires
        c.stepped(ev, now).1 matches Some(ControlActionView::EnableStrategy(
            SwitchMode::AdapterReconfig,
            _,
        )),
    ensures
        c.phase is SavingSnapshot || c.phase is ListingForCheck,
        c.phase is SavingSnapshot ==> (ev matches ControlEventView::Done(Ok(_))),
{
}

/// The phase in which adapters are checked at startup is entered only with a backup.
pub proof fn check_at_startup_needs_backup(c: ControlView, ev: ControlEventView, now: Timestamp)
    requires
        c.phase !is ListingForCheck,
        c.stepped(ev, now).0.phase is ListingForCheck,
    ensures
        ev == ControlEventView::Snapshot(Ok(true)),
{
}

/// Enabling while a switch is in effect undoes that switch first.
pub proof fn enabling_again_undoes_the_old_switch(c: ControlView, h: HandleView, now: Timestamp)
    requires
        c.phase is Ready,
        is_complete(c.config),
        c.ctx.handle == Some(h),
    ensures
        c.stepped(ControlEventView::Enable, now).1 == Some(ControlActionView::DisableStrategy(h)),
        c.stepped(ControlEventView::Enable, now).0.ctx.handle is None,
{
}

/// Disabling ends with no switch, no monitor, and that written down.
pub proof fn disabled_means_direct(c: ControlView, h: HandleView, t0: Timestamp, t1: Timestamp, t2: Timestamp)
    requires
        c.phase is Ready,
        c.ctx.handle == Some(h),
    ensures
        ({
            let (c1, a1) = c.stepped(ControlEventView::Disable, t0);
            let (c2, a2) = c1.stepped(ControlEventView::Done(Ok(())), t1);
            let (c3, a3) = c2.stepped(ControlEventView::Done(Ok(())), t2);
            &&& a1 == Some(ControlActionView::DisableStrategy(h))
            &&& a2 == Some(ControlActionView::SaveRuntime(RuntimeState::initial(t1)))
            &&& a3 == Some(ControlActionView::Finish(Ok(())))
            &&& c3.ctx.handle is None
            &&& c3.monitor is None
            &&& c3.ctx.runtime == RuntimeState::initial(t1)
            &&& c3.phase is Ready
        }),
{
}

/// Disabling without a switch succeeds, too: it can be repeated.
pub proof fn disabling_can_be_repeated(c: ControlView, t0: Timestamp, t1: Timestamp)
    requires
        c.phase is Ready,
        c.ctx.handle is None,
    ensures
        ({
            let (c1, a1) = c.stepped(ControlEventView::Disable, t0);
            let (c2, a2) = c1.stepped(ControlEventView::Done(Ok(())), t1);
            &&& a1 == Some(ControlActionView::SaveRuntime(RuntimeState::initial(t0)))
            &&& a2 == Some(ControlActionView::Finish(Ok(())))
            &&& c2.ctx.handle is None
            &&& c2.monitor is None
        }),
{
}

/// After disabling has begun, the monitor that was running can no longer touch
/// anything: whatever answers still reach it, and whatever the controller does meanwhile,
/// the switch is not brought back.
pub proof fn running_monitor_cannot_revive_the_switch(
    c: ControlView,
    p: ParamsView,
    l: HealthLoop,
    events: Seq<SystemEvent>,
    now: Timestamp,
)
    requires
        control_inv(c),
        c.phase is Ready,
        c.monitor == Some(p),
        events.len() <= 0x1000_0000_0000_0000,
    ensures
        ({
            let after = c.stepped(ControlEventView::Disable, now).0;
            system_run(after, l, p, events).0 == control_run(after, events)
        }),
{
    let after = c.stepped(ControlEventView::Disable, now).0;
    old_monitor_makes_no_difference(after, l, p, events);
}

/// What is written is always the state that clients see.
pub proof fn written_runtime_is_current(c: ControlView, ev: ControlEventView, now: Timestamp)
    ensures
        c.stepped(ev, now).1 matches Some(ControlActionView::SaveRuntime(rs)) ==> rs == c.stepped(
            ev,
            now,
        ).0.ctx.runtime,
{
}

/// An invalid configuration is refused without being written.
pub proof fn invalid_config_is_not_written(c: ControlView, new: ConfigView, now: Timestamp)
    requires
        c.phase is Ready,
        config_fault(new) is Some,
    ensures
        c.stepped(ControlEventView::Update(new), now) == c.finished(Err(config_fault(new)->0)),
{
}

/// A new target takes effect at once: while the bypass is enabled, the old switch is
/// undone and the new one is made with the new configuration, after a backup where an
/// adapter is to be reconfigured.
pub proof fn new_target_is_switched_at_once(
    c: ControlView,
    new: ConfigView,
    h: HandleView,
    t0: Timestamp,
    t1: Timestamp,
    t2: Timestamp,
    t3: Timestamp,
)
    requires
        c.phase is Ready,
        config_fault(new) is None,
        c.ctx.runtime.is_enabled,
        c.ctx.handle == Some(h),
        switches_differently(c.config, new),
    ensures
        ({
            let (c1, a1) = c.stepped(ControlEventView::Update(new), t0);
            let (c2, a2) = c1.stepped(ControlEventView::Done(Ok(())), t1);
            let (c3, a3) = c2.stepped(ControlEventView::Done(Ok(())), t2);
            let (c4, a4) = c3.stepped(ControlEventView::Done(Ok(())), t3);
            &&& a1 == Some(ControlActionView::SaveConfig(new))
            &&& a2 == Some(ControlActionView::DisableStrategy(h))
            &&& a3 == Some(ControlActionView::SaveRuntime(RuntimeState::initial(t2)))
            &&& a4 == Some(
                match new.switch_mode {
                    SwitchMode::RouteOverlay => ControlActionView::EnableStrategy(
                        SwitchMode::RouteOverlay,
                        new.target(),
                    ),
                    SwitchMode::AdapterReconfig => ControlActionView::ListAdapters,
                },
            )
            &&& c4.config == new
        }),
{
}

/// A change of monitoring alone restarts the monitor with the new settings and leaves
/// the switch alone.
pub proof fn new_health_settings_restart_the_monitor(
    c: ControlView,
    new: ConfigView,
    t0: Timestamp,
    t1: Timestamp,
)
    requires
        c.phase is Ready,
        config_fault(new) is None,
        c.ctx.runtime.is_enabled,
        c.ctx.handle is Some,
        !switches_differently(c.config, new),
        monitors_differently(c.config, new),
    ensures
        ({
            let (c1, a1) = c.stepped(ControlEventView::Update(new), t0);
            let (c2, a2) = c1.stepped(ControlEventView::Done(Ok(())), t1);
            &&& a1 == Some(ControlActionView::SaveConfig(new))
            &&& a2 == Some(ControlActionView::Finish(Ok(())))
            &&& c2.config == new
            &&& c2.ctx.handle == c.ctx.handle
            &&& c2.ctx.runtime == c.ctx.runtime
            &&& c2.ctx.generation == next_generation(c.ctx.generation)
            &&& c2.monitor matches Some(p)
            &&& p.generation == c2.ctx.generation
            &&& p.interval_secs == new.health_check_interval_secs
            &&& p.threshold == new.failure_threshold
            &&& p.auto_reenable == new.auto_reenable_after_recovery
        }),
{
}

/// A new configuration that changes neither the target nor the monitoring, or that comes
/// while the bypass is off, is written and kept, and nothing else happens.
pub proof fn other_settings_change_nothing_else(
    c: ControlView,
    new: ConfigView,
    t0: Timestamp,
    t1: Timestamp,
)
    requires
        c.phase is Ready,
        config_fault(new) is None,
        !c.ctx.runtime.is_enabled || c.ctx.handle is None || (!switches_differently(c.config, new)
            && !monitors_differently(c.config, new)),
    ensures
        ({
            let (c1, a1) = c.stepped(ControlEventView::Update(new), t0);
            let (c2, a2) = c1.stepped(ControlEventView::Done(Ok(())), t1);
            &&& a1 == Some(ControlActionView::SaveConfig(new))
            &&& a2 == Some(ControlActionView::Finish(Ok(())))
            &&& c2 == (ControlView { config: new, ..c })
        }),
{
}

/// A configuration without a router is refused and changes nothing, whichever adapter it
/// names: an adapter cannot be chosen before a router is set.
pub proof fn unset_router_is_refused(c: ControlView, new: ConfigView, now: Timestamp)
    requires
        c.phase is Ready,
        !is_router(new.bypass_ip),
    ensures
        c.stepped(ControlEventView::Update(new), now) == (
            c,
            Some(
                ControlActionView::Finish(
                    Err(
                        ErrorView::ConfigIncomplete(
                            "请先在设置中完成网卡与旁路由 IP 配置"@,
                        ),
                    ),
                ),
            ),
        ),
{
}

/// The initial configuration names no router: bringing it back is refused, whatever is in
/// effect and whichever adapter is selected.
pub proof fn initial_config_is_refused(c: ControlView, adapter_id: Seq<char>, now: Timestamp)
    requires
        c.phase is Ready,
    ensures
        ({
            let new = ConfigView { adapter_id, ..ConfigView::initial() };
            let (after, action) = c.stepped(ControlEventView::Update(new), now);
            &&& after == c
            &&& action matches Some(ControlActionView::Finish(Err(ErrorView::ConfigIncomplete(_))))
        }),
{
}

/// At startup with the bypass expected to be off, leftover routes and a leftover backup
/// are removed, and nothing is switched. Only routes through a router that can be one are
/// looked for: none where the address is not set or is an IPv6 address.
pub proof fn startup_cleans_up_when_direct(
    c: ControlView,
    t0: Timestamp,
    t1: Timestamp,
    t2: Timestamp,
)
    requires
        c.phase is Ready,
        !c.ctx.runtime.is_enabled,
    ensures
        ({
            let (c1, a1) = c.stepped(ControlEventView::Reconcile, t0);
            let (c2, a2) = c1.stepped(ControlEventView::Done(Ok(())), t1);
            let (c3, a3) = c2.stepped(ControlEventView::Done(Ok(())), t2);
            if is_router(c.config.bypass_ip) {
                &&& a1 == Some(ControlActionView::CleanupRoutes(c.config.bypass_ip->V4_0))
                &&& a2 == Some(ControlActionView::ClearSnapshot)
                &&& a3 == Some(ControlActionView::Finish(Ok(())))
                &&& c3 == c
            } else {
                &&& a1 == Some(ControlActionView::ClearSnapshot)
                &&& a2 == Some(ControlActionView::Finish(Ok(())))
                &&& c2 == c
            }
        }),
{
}

/// No step asks to remove leftover routes, or to take an overlay over, where the address is
/// no router's: a machine that was never set up keeps its routes.
pub proof fn found_routes_lead_to_a_router(c: ControlView, e: ControlEventView, now: Timestamp)
    ensures
        c.stepped(e, now).1 matches Some(ControlActionView::CleanupRoutes(ip)) ==> {
            &&& is_router(c.config.bypass_ip)
            &&& c.config.bypass_ip == IpAddr::V4(ip)
        },
        c.stepped(e, now).1 matches Some(ControlActionView::FindOverlay(ip)) ==> {
            &&& is_router(c.config.bypass_ip)
            &&& c.config.bypass_ip == IpAddr::V4(ip)
        },
{
}

/// At startup an overlay that is still in effect is taken over, not made again, and
/// monitoring resumes.
pub proof fn startup_takes_over_an_overlay(
    c: ControlView,
    ip: Ipv4Addr,
    h: HandleView,
    t0: Timestamp,
    t1: Timestamp,
)
    requires
        c.phase is Ready,
        c.ctx.runtime.is_enabled,
        c.ctx.runtime.current_mode == Some(SwitchMode::RouteOverlay),
        c.config.bypass_ip == IpAddr::V4(ip),
        is_router(c.config.bypass_ip),
    ensures
        ({
            let (c1, a1) = c.stepped(ControlEventView::Reconcile, t0);
            let (c2, a2) = c1.stepped(ControlEventView::Overlay(Ok(Some(h))), t1);
            &&& a1 == Some(ControlActionView::FindOverlay(ip))
            &&& a2 == Some(ControlActionView::Finish(Ok(())))
            &&& c2.ctx.handle == Some(h)
            &&& c2.ctx.runtime == c.ctx.runtime
            &&& c2.monitor matches Some(p)
            &&& p.mode == SwitchMode::RouteOverlay
            &&& p.target == c.config.target()
            &&& p.generation == c2.ctx.generation
        }),
{
}

/// At startup a missing overlay is made again.
pub proof fn startup_rebuilds_a_missing_overlay(
    c: ControlView,
    ip: Ipv4Addr,
    t0: Timestamp,
    t1: Timestamp,
)
    requires
        c.phase is Ready,
        c.ctx.runtime.is_enabled,
        c.ctx.runtime.current_mode == Some(SwitchMode::RouteOverlay),
        c.config.bypass_ip == IpAddr::V4(ip),
        is_router(c.config.bypass_ip),
    ensures
        ({
            let (c1, a1) = c.stepped(ControlEventView::Reconcile, t0);
            let (c2, a2) = c1.stepped(ControlEventView::Overlay(Ok(None)), t1);
            &&& a1 == Some(ControlActionView::FindOverlay(ip))
            &&& a2 == Some(
                ControlActionView::EnableStrategy(SwitchMode::RouteOverlay, c.config.target()),
            )
        }),
{
}

/// At startup a reconfigured adapter that still sends its traffic to the router is taken
/// over, and monitoring resumes; one that does not is reconfigured again.
pub proof fn startup_checks_a_reconfigured_adapter(
    c: ControlView,
    list: Seq<AdapterView>,
    t0: Timestamp,
    t1: Timestamp,
    t2: Timestamp,
)
    requires
        c.phase is Ready,
        c.ctx.runtime.is_enabled,
        c.ctx.runtime.current_mode == Some(SwitchMode::AdapterReconfig),
    ensures
        ({
            let (c1, a1) = c.stepped(ControlEventView::Reconcile, t0);
            let (c2, a2) = c1.stepped(ControlEventView::Snapshot(Ok(true)), t1);
            let (c3, a3) = c2.stepped(ControlEventView::Adapters(Ok(list)), t2);
            &&& a1 == Some(ControlActionView::LoadSnapshot)
            &&& a2 == Some(ControlActionView::ListAdapters)
            &&& c.gateway_ok(list) ==> {
                &&& a3 == Some(ControlActionView::Finish(Ok(())))
                &&& c3.ctx.handle == Some(reconfig_handle(c.config.adapter_id))
                &&& c3.ctx.runtime == c.ctx.runtime
                &&& c3.monitor is Some
            }
            &&& !c.gateway_ok(list) ==> a3 == Some(
                ControlActionView::EnableStrategy(SwitchMode::AdapterReconfig, c.config.target()),
            )
        }),
{
}

/// At startup a reconfigured adapter without a backup cannot be restored: the bypass
/// counts as disabled from then on.
pub proof fn startup_without_backup_means_direct(
    c: ControlView,
    t0: Timestamp,
    t1: Timestamp,
    t2: Timestamp,
)
    requires
        c.phase is Ready,
        c.ctx.runtime.is_enabled,
        c.ctx.runtime.current_mode == Some(SwitchMode::AdapterReconfig),
    ensures
        ({
            let (c1, a1) = c.stepped(ControlEventView::Reconcile, t0);
            let (c2, a2) = c1.stepped(ControlEventView::Snapshot(Ok(false)), t1);
            let (c3, a3) = c2.stepped(ControlEventView::Done(Ok(())), t2);
            &&& a1 == Some(ControlActionView::LoadSnapshot)
            &&& a2 == Some(ControlActionView::SaveRuntime(RuntimeState::initial(t1)))
            &&& a3 == Some(ControlActionView::Finish(Ok(())))
            &&& c3.ctx.runtime == RuntimeState::initial(t1)
        }),
{
}

// ---------------------------------------------------------------------------
// A monitor that outlives its switch
// ---------------------------------------------------------------------------

/// What happens while an old monitor is still around.
pub enum SystemEvent {
    /// The controller is told something.
    Control(ControlEventView, Timestamp),
    /// The old monitor is told something.
    Tick(TickEventView, Timestamp),
}

/// The controller and the old monitor after a run of events.
pub open spec fn system_run(
    c: ControlView,
    l: HealthLoop,
    p: ParamsView,
    events: Seq<SystemEvent>,
) -> (ControlView, HealthLoop)
    decreases events.len(),
{
    if events.len() == 0 {
        (c, l)
    } else {
        let (d, m) = system_run(c, l, p, events.drop_last());
        match events.last() {
            SystemEvent::Control(ev, now) => (d.stepped(ev, now).0, m),
            SystemEvent::Tick(ev, now) => {
                let s = stepped(m, d.ctx, p, ev, now);
                (ControlView { ctx: s.ctx, ..d }, s.next)
            },
        }
    }
}

/// The controller after the same run, without the old monitor.
pub open spec fn control_run(c: ControlView, events: Seq<SystemEvent>) -> ControlView
    decreases events.len(),
{
    if events.len() == 0 {
        c
    } else {
        let d = control_run(c, events.drop_last());
        match events.last() {
            SystemEvent::Control(ev, now) => d.stepped(ev, now).0,
            SystemEvent::Tick(_, _) => d,
        }
    }
}

/// How many generations after `from` the generation `g` is; the count goes round.
pub open spec fn ahead(g: u64, from: u64) -> int {
    if g >= from {
        g - from
    } else {
        g - from + 0x1_0000_0000_0000_0000
    }
}

/// A step of the controller moves on by two generations at most.
pub proof fn generations_only_move_on(
    c: ControlView,
    ev: ControlEventView,
    now: Timestamp,
    from: u64,
)
    requires
        ahead(c.ctx.generation, from) <= 0xffff_ffff_ffff_fff0,
    ensures
        ({
            let g = ahead(c.ctx.generation, from);
            g <= ahead(c.stepped(ev, now).0.ctx.generation, from) <= g + 2
        }),
{
}

/// A monitor that was replaced never comes back into play: in however long a run, what
/// it is still told makes no difference to the controller. In particular it cannot bring
/// back a switch that was undone. The run is as long as generations can be told apart.
pub proof fn old_monitor_makes_no_difference(
    c: ControlView,
    l: HealthLoop,
    p: ParamsView,
    events: Seq<SystemEvent>,
)
    requires
        c.ctx.generation == next_generation(p.generation),
        events.len() <= 0x1000_0000_0000_0000,
    ensures
        system_run(c, l, p, events).0 == control_run(c, events),
        1 <= ahead(control_run(c, events).ctx.generation, p.generation) <= 1 + 2 * events.len(),
    decreases events.len(),
{
    if events.len() > 0 {
        old_monitor_makes_no_difference(c, l, p, events.drop_last());
        let (d, m) = system_run(c, l, p, events.drop_last());
        match events.last() {
            SystemEvent::Control(ev, now) => {
                generations_only_move_on(d, ev, now, p.generation);
            },
            SystemEvent::Tick(ev, now) => {
                replaced_monitor_has_no_effect(m, d.ctx, p, ev, now);
            },
        }
    }
}

} // verus!
