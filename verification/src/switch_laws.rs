//! What the controller's operations come to, from the first request to the last answer:
//! which actions are asked for, in which order, and what is in effect at the end.

use vstd::prelude::*;

use crate::addr::{IpAddr, Ipv4Addr};
use crate::controller::{
    next_generation, option_view, ControlAction, ControlActionView, ControlEvent, ControlEventView,
    ControlPhase, ControlView, Controller, PhaseView,
};
use crate::error::ErrorView;
use crate::health_monitor::ParamsView;
use crate::protocol::{
    adapters_view, AdapterView, ConfigView, HandleView, HealthStatus, RuntimeState, SnapshotView,
    SwitchMode, TargetView, Timestamp,
};

verus! {

/// Whether an address is an IPv4 address with an octet that is not zero.
pub open spec fn is_set(ip: IpAddr) -> bool {
    ip matches IpAddr::V4(v) && (v.a != 0 || v.b != 0 || v.c != 0 || v.d != 0)
}

/// Whether a configuration names an adapter and a router.
pub open spec fn is_ready_to_switch(c: ConfigView) -> bool {
    c.adapter_id.len() > 0 && is_set(c.bypass_ip)
}

/// Whether a target holds what the configuration says of the switch.
pub open spec fn aims_as(t: TargetView, c: ConfigView) -> bool {
    &&& t.adapter_id == c.adapter_id
    &&& t.bypass_ip == c.bypass_ip
    &&& t.dns == c.dns_override
    &&& t.subnet_mask == c.subnet_mask
    &&& t.static_ip == c.static_ip
}

/// Whether a monitor watches the switch that the configuration describes, in its rhythm
/// and with its patience, both at least one.
pub open spec fn watches_as(
    m: Option<ParamsView>,
    c: ConfigView,
    mode: SwitchMode,
    generation: u64,
) -> bool {
    &&& m matches Some(p)
    &&& p.mode == mode
    &&& aims_as(p.target, c)
    &&& p.interval_secs == if c.health_check_interval_secs == 0 {
        1
    } else {
        c.health_check_interval_secs as int
    }
    &&& p.threshold == if c.failure_threshold == 0 {
        1
    } else {
        c.failure_threshold as int
    }
    &&& p.auto_reenable == c.auto_reenable_after_recovery
    &&& p.generation == generation
}

/// Whether the runtime state says that traffic goes directly, since the moment.
pub open spec fn says_direct(rs: RuntimeState, since: Timestamp) -> bool {
    &&& !rs.is_enabled
    &&& rs.current_mode is None
    &&& rs.health == HealthStatus::Idle
    &&& rs.last_updated == since
}

/// Whether the runtime state says that the bypass is in effect in the mode, since the
/// moment.
pub open spec fn says_enabled(rs: RuntimeState, mode: SwitchMode, since: Timestamp) -> bool {
    &&& rs.is_enabled
    &&& rs.current_mode == Some(mode)
    &&& rs.health == HealthStatus::Healthy
    &&& rs.last_updated == since
}

/// Whether the action makes the switch in the mode that the configuration describes.
pub open spec fn makes_switch(
    a: Option<ControlActionView>,
    mode: SwitchMode,
    c: ConfigView,
) -> bool {
    a matches Some(ControlActionView::EnableStrategy(m, t)) && m == mode && aims_as(t, c)
}

/// Whether the adapter at the place is the first with the identifier.
pub open spec fn is_first(list: Seq<AdapterView>, i: int, id: Seq<char>) -> bool {
    &&& 0 <= i < list.len()
    &&& list[i].id == id
    &&& forall|k: int| 0 <= k < i ==> (#[trigger] list[k]).id != id
}

/// The first adapter with an identifier is the one that is found.
pub proof fn lemma_first_is_found(list: Seq<AdapterView>, i: int, id: Seq<char>)
    requires
        is_first(list, i, id),
    ensures
        crate::protocol::find_adapter(list, id) == Some(list[i]),
    decreases i,
{
    if i > 0 {
        let rest = list.skip(1);
        assert(list[0].id != id);
        assert forall|k: int| 0 <= k < i - 1 implies (#[trigger] rest[k]).id != id by {
            assert(rest[k] == list[k + 1]);
        }
        assert(rest[i - 1] == list[i]);
        lemma_first_is_found(rest, i - 1, id);
    }
}

/// No adapter is found where none has the identifier.
pub proof fn lemma_none_is_found(list: Seq<AdapterView>, id: Seq<char>)
    requires
        forall|k: int| 0 <= k < list.len() ==> (#[trigger] list[k]).id != id,
    ensures
        crate::protocol::find_adapter(list, id) is None,
    decreases list.len(),
{
    if list.len() > 0 {
        let rest = list.skip(1);
        assert(list[0].id != id);
        assert forall|k: int| 0 <= k < rest.len() implies (#[trigger] rest[k]).id != id by {
            assert(rest[k] == list[k + 1]);
        }
        lemma_none_is_found(rest, id);
    }
}

// ---------------------------------------------------------------------------
// Enabling
// ---------------------------------------------------------------------------

/// However the switch came to be made, and in whichever mode: once it is made, its handle
/// is kept, the runtime state says so and is written, and once that is written a monitor of
/// the new generation watches it.
pub proof fn made_switch_is_recorded_and_watched(
    c: ControlView,
    mode: SwitchMode,
    h: HandleView,
    t1: Timestamp,
    t2: Timestamp,
)
    requires
        c.phase == PhaseView::Enabling(mode),
    ensures
        ({
            let (c1, a1) = c.stepped(ControlEventView::Enabled(Ok(h)), t1);
            let (c2, a2) = c1.stepped(ControlEventView::Done(Ok(())), t2);
            &&& a1 == Some(ControlActionView::SaveRuntime(c1.ctx.runtime))
            &&& says_enabled(c1.ctx.runtime, mode, t1)
            &&& a2 == Some(ControlActionView::Finish(Ok(())))
            &&& c2.phase is Ready
            &&& c2.config == c.config
            &&& c2.ctx.handle == Some(h)
            &&& c2.ctx.runtime == c1.ctx.runtime
            &&& c2.ctx.generation != c.ctx.generation
            &&& watches_as(c2.monitor, c.config, mode, c2.ctx.generation)
        }),
{
}

/// Enabling in overlay mode ends with the switch in effect, recorded and watched.
pub proof fn enabling_the_overlay_succeeds(
    c: ControlView,
    h: HandleView,
    t0: Timestamp,
    t1: Timestamp,
    t2: Timestamp,
)
    requires
        c.phase is Ready,
        c.ctx.handle is None,
        is_ready_to_switch(c.config),
        c.config.switch_mode is RouteOverlay,
    ensures
        ({
            let (c1, a1) = c.stepped(ControlEventView::Enable, t0);
            let (c2, a2) = c1.stepped(ControlEventView::Enabled(Ok(h)), t1);
            let (c3, a3) = c2.stepped(ControlEventView::Done(Ok(())), t2);
            &&& makes_switch(a1, SwitchMode::RouteOverlay, c.config)
            &&& a2 == Some(ControlActionView::SaveRuntime(c2.ctx.runtime))
            &&& a3 == Some(ControlActionView::Finish(Ok(())))
            &&& c3.phase is Ready
            &&& c3.config == c.config
            &&& c3.ctx.handle == Some(h)
            &&& says_enabled(c3.ctx.runtime, SwitchMode::RouteOverlay, t1)
            &&& watches_as(c3.monitor, c.config, SwitchMode::RouteOverlay, c3.ctx.generation)
        }),
{
}

/// Enabling in adapter mode backs up exactly what the adapter has, and ends with the switch
/// in effect, recorded and watched.
pub proof fn enabling_the_adapter_succeeds(
    c: ControlView,
    list: Seq<AdapterView>,
    i: int,
    dhcp: Option<bool>,
    h: HandleView,
    t: Seq<Timestamp>,
)
    requires
        c.phase is Ready,
        c.ctx.handle is None,
        is_ready_to_switch(c.config),
        c.config.switch_mode is AdapterReconfig,
        is_first(list, i, c.config.adapter_id),
        t.len() == 6,
    ensures
        ({
            let (c1, a1) = c.stepped(ControlEventView::Enable, t[0]);
            let (c2, a2) = c1.stepped(ControlEventView::Adapters(Ok(list)), t[1]);
            let (c3, a3) = c2.stepped(ControlEventView::Dhcp(dhcp), t[2]);
            let (c4, a4) = c3.stepped(ControlEventView::Done(Ok(())), t[3]);
            let (c5, a5) = c4.stepped(ControlEventView::Enabled(Ok(h)), t[4]);
            let (c6, a6) = c5.stepped(ControlEventView::Done(Ok(())), t[5]);
            &&& a1 == Some(ControlActionView::ListAdapters)
            &&& a2 == Some(ControlActionView::QueryDhcp(c.config.adapter_id))
            &&& a3 matches Some(ControlActionView::SaveSnapshot(s))
            &&& keeps(s, list[i], dhcp)
            &&& makes_switch(a4, SwitchMode::AdapterReconfig, c.config)
            &&& a5 == Some(ControlActionView::SaveRuntime(c5.ctx.runtime))
            &&& a6 == Some(ControlActionView::Finish(Ok(())))
            &&& c6.phase is Ready
            &&& c6.config == c.config
            &&& c6.ctx.handle == Some(h)
            &&& says_enabled(c6.ctx.runtime, SwitchMode::AdapterReconfig, t[4])
            &&& watches_as(c6.monitor, c.config, SwitchMode::AdapterReconfig, c6.ctx.generation)
        }),
{
    lemma_first_is_found(list, i, c.config.adapter_id);
}

/// Whether a backup holds what the adapter has: its addresses, routers and name servers,
/// each address with the usual prefix, and whether they come by DHCP as far as is known.
pub open spec fn keeps(s: SnapshotView, a: AdapterView, dhcp: Option<bool>) -> bool {
    &&& s.adapter_id == a.id
    &&& s.is_dhcp_enabled <==> dhcp == Some(true)
    &&& s.static_ipv4 == a.ipv4
    &&& s.static_ipv4_mask.len() == a.ipv4.len()
    &&& forall|k: int| 0 <= k < a.ipv4.len() ==> #[trigger] s.static_ipv4_mask[k] == 24
    &&& s.gateway == a.gateway
    &&& s.dns == a.dns
}

/// Enabling without an adapter or a router is refused and changes nothing.
pub proof fn enabling_without_a_goal_is_refused(c: ControlView, now: Timestamp)
    requires
        c.phase is Ready,
        !is_ready_to_switch(c.config),
    ensures
        c.stepped(ControlEventView::Enable, now) == (
            c,
            Some(
                ControlActionView::Finish(
                    Err(
                        ErrorView::ConfigIncomplete(
                            "请先在设置中完成网卡与旁路由 IP 配置"@,
                        ),
                    ),
                ),
            ),
        ),
{
}

/// Enabling in adapter mode fails where the adapter is not there or cannot be looked for,
/// before anything is changed.
pub proof fn missing_adapter_stops_enabling(
    c: ControlView,
    list: Seq<AdapterView>,
    cause: Seq<char>,
    t0: Timestamp,
    t1: Timestamp,
)
    requires
        c.phase is Ready,
        c.ctx.handle is None,
        is_ready_to_switch(c.config),
        c.config.switch_mode is AdapterReconfig,
        forall|k: int| 0 <= k < list.len() ==> (#[trigger] list[k]).id != c.config.adapter_id,
    ensures
        ({
            let c1 = c.stepped(ControlEventView::Enable, t0).0;
            let (c2, a2) = c1.stepped(ControlEventView::Adapters(Ok(list)), t1);
            let (c3, a3) = c1.stepped(ControlEventView::Adapters(Err(cause)), t1);
            &&& c2 == c
            &&& c3 == c
            &&& a2 == Some(
                ControlActionView::Finish(
                    Err(ErrorView::Network("网卡 "@ + c.config.adapter_id + " 不存在"@)),
                ),
            )
            &&& a3 == Some(
                ControlActionView::Finish(
                    Err(ErrorView::Network("枚举网卡失败: "@ + cause)),
                ),
            )
        }),
{
    lemma_none_is_found(list, c.config.adapter_id);
}

/// A switch that cannot be made is reported with its cause, and nothing counts as enabled.
pub proof fn failed_switch_is_reported(c: ControlView, mode: SwitchMode, e: ErrorView, now: Timestamp)
    requires
        c.phase == PhaseView::Enabling(mode),
    ensures
        c.stepped(ControlEventView::Enabled(Err(e)), now) == (
            (ControlView { phase: PhaseView::Ready, ..c }),
            Some(ControlActionView::Finish(Err(e))),
        ),
{
}

/// Whether an operation waits for something to be done.
pub open spec fn waits_for_done(p: PhaseView) -> bool {
    ||| p is Disabling
    ||| p is SavingDisabled
    ||| p is SavingSnapshot
    ||| p is SavingEnabled
    ||| p is SavingConfig
    ||| p is CleaningRoutes
    ||| p is ClearingSnapshot
}

/// Whatever cannot be done ends the operation with its cause, and changes nothing more.
pub proof fn failure_ends_the_operation(c: ControlView, e: ErrorView, now: Timestamp)
    requires
        waits_for_done(c.phase),
    ensures
        c.stepped(ControlEventView::Done(Err(e)), now) == (
            (ControlView { phase: PhaseView::Ready, ..c }),
            Some(ControlActionView::Finish(Err(e))),
        ),
{
}

/// What does not suit the phase is ignored: a request while an operation runs, and an
/// answer that was not asked for.
pub proof fn what_does_not_suit_is_ignored(c: ControlView, ev: ControlEventView, now: Timestamp)
    requires
        match ev {
            ControlEventView::Enable => !(c.phase is Ready),
            ControlEventView::Disable => !(c.phase is Ready),
            ControlEventView::Update(_) => !(c.phase is Ready),
            ControlEventView::Reconcile => !(c.phase is Ready),
            ControlEventView::Done(_) => !waits_for_done(c.phase),
            ControlEventView::Adapters(_) => !(c.phase is ListingForBackup
                || c.phase is ListingForCheck),
            ControlEventView::Dhcp(_) => !(c.phase is QueryingDhcp),
            ControlEventView::Enabled(_) => !(c.phase is Enabling),
            ControlEventView::Overlay(_) => !(c.phase is FindingOverlay),
            ControlEventView::Snapshot(_) => !(c.phase is LoadingSnapshot),
        },
    ensures
        c.stepped(ev, now) == (c, None::<ControlActionView>),
{
}

// ---------------------------------------------------------------------------
// Disabling
// ---------------------------------------------------------------------------

/// Disabling undoes exactly the switch that is in effect, stops its monitor at once, and
/// ends with traffic going directly, which is recorded.
pub proof fn disabling_succeeds(
    c: ControlView,
    h: HandleView,
    t0: Timestamp,
    t1: Timestamp,
    t2: Timestamp,
)
    requires
        c.phase is Ready,
        c.ctx.handle == Some(h),
    ensures
        ({
            let (c1, a1) = c.stepped(ControlEventView::Disable, t0);
            let (c2, a2) = c1.stepped(ControlEventView::Done(Ok(())), t1);
            let (c3, a3) = c2.stepped(ControlEventView::Done(Ok(())), t2);
            &&& a1 == Some(ControlActionView::DisableStrategy(h))
            &&& c1.monitor is None
            &&& c1.ctx.handle is None
            &&& c1.ctx.generation != c.ctx.generation
            &&& a2 == Some(ControlActionView::SaveRuntime(c2.ctx.runtime))
            &&& a3 == Some(ControlActionView::Finish(Ok(())))
            &&& c3.phase is Ready
            &&& c3.config == c.config
            &&& c3.ctx.handle is None
            &&& c3.monitor is None
            &&& says_direct(c3.ctx.runtime, t1)
        }),
{
}

/// Disabling without a switch records that traffic goes directly, and undoes nothing.
pub proof fn disabling_nothing_succeeds(c: ControlView, t0: Timestamp, t1: Timestamp)
    requires
        c.phase is Ready,
        c.ctx.handle is None,
    ensures
        ({
            let (c1, a1) = c.stepped(ControlEventView::Disable, t0);
            let (c2, a2) = c1.stepped(ControlEventView::Done(Ok(())), t1);
            &&& a1 == Some(ControlActionView::SaveRuntime(c1.ctx.runtime))
            &&& a2 == Some(ControlActionView::Finish(Ok(())))
            &&& c2.phase is Ready
            &&& c2.config == c.config
            &&& c2.ctx.handle is None
            &&& c2.monitor is None
            &&& c2.ctx.generation != c.ctx.generation
            &&& says_direct(c2.ctx.runtime, t0)
        }),
{
}

/// Enabling while a switch is in effect undoes it, records that, and makes the switch that
/// the configuration describes; in adapter mode it begins with the backup.
pub proof fn enabling_again_replaces_the_switch(
    c: ControlView,
    h: HandleView,
    t0: Timestamp,
    t1: Timestamp,
    t2: Timestamp,
)
    requires
        c.phase is Ready,
        c.ctx.handle == Some(h),
        is_ready_to_switch(c.config),
    ensures
        ({
            let (c1, a1) = c.stepped(ControlEventView::Enable, t0);
            let (c2, a2) = c1.stepped(ControlEventView::Done(Ok(())), t1);
            let (c3, a3) = c2.stepped(ControlEventView::Done(Ok(())), t2);
            &&& a1 == Some(ControlActionView::DisableStrategy(h))
            &&& a2 == Some(ControlActionView::SaveRuntime(c2.ctx.runtime))
            &&& says_direct(c2.ctx.runtime, t1)
            &&& c.config.switch_mode is RouteOverlay ==> makes_switch(
                a3,
                SwitchMode::RouteOverlay,
                c.config,
            ) && c3.phase == PhaseView::Enabling(SwitchMode::RouteOverlay)
            &&& c.config.switch_mode is AdapterReconfig ==> a3 == Some(
                ControlActionView::ListAdapters,
            ) && c3.phase is ListingForBackup
            &&& c3.config == c.config
            &&& c3.ctx.handle is None
            &&& c3.monitor is None
        }),
{
}

// ---------------------------------------------------------------------------
// A new configuration
// ---------------------------------------------------------------------------

/// Whether four octets are ones and then zeros: the number that they make falls short of a
/// power of two by a power of two.
pub open spec fn is_contiguous(m: Ipv4Addr) -> bool {
    exists|n: nat|
        n <= 32 && (m.a as int) * 0x100_0000 + (m.b as int) * 0x1_0000 + (m.c as int) * 0x100 + (
        m.d as int) + #[trigger] vstd::arithmetic::power2::pow2(n) == 0x1_0000_0000
}

/// Whether a configuration may be taken over: it names an adapter and a router, the
/// interval and the threshold are positive, and in adapter mode the mask is one, if it is
/// given.
pub open spec fn is_acceptable(c: ConfigView) -> bool {
    &&& is_ready_to_switch(c)
    &&& c.health_check_interval_secs > 0
    &&& c.failure_threshold > 0
    &&& c.switch_mode is AdapterReconfig ==> (c.subnet_mask matches Some(m) ==> is_contiguous(m))
}

proof fn lemma_masks_agree(m: Ipv4Addr)
    ensures
        is_contiguous(m) == crate::addr::is_mask(m),
{
    if is_contiguous(m) {
        let n = choose|n: nat|
            n <= 32 && (m.a as int) * 0x100_0000 + (m.b as int) * 0x1_0000 + (m.c as int) * 0x100
                + (m.d as int) + #[trigger] vstd::arithmetic::power2::pow2(n) == 0x1_0000_0000;
        assert(m.value() == crate::addr::mask_value((32 - n) as nat));
    }
    if crate::addr::is_mask(m) {
        let p = choose|p: nat| p <= 32 && m.value() == #[trigger] crate::addr::mask_value(p);
        let n = (32 - p) as nat;
        assert((m.a as int) * 0x100_0000 + (m.b as int) * 0x1_0000 + (m.c as int) * 0x100 + (
        m.d as int) + vstd::arithmetic::power2::pow2(n) == 0x1_0000_0000);
    }
}

/// A configuration is written exactly if it may be taken over. Any other is refused with
/// what is wrong with it, and nothing changes.
pub proof fn only_acceptable_configurations_are_written(
    c: ControlView,
    new: ConfigView,
    now: Timestamp,
)
    requires
        c.phase is Ready,
    ensures
        ({
            let (next, action) = c.stepped(ControlEventView::Update(new), now);
            &&& is_acceptable(new) ==> {
                &&& action == Some(ControlActionView::SaveConfig(new))
                &&& next == (ControlView { phase: PhaseView::SavingConfig(new), ..c })
            }
            &&& !is_acceptable(new) ==> {
                &&& next == c
                &&& action == Some(
                    ControlActionView::Finish(
                        Err(
                            ErrorView::ConfigIncomplete(
                                if !is_ready_to_switch(new) {
                                    "请先在设置中完成网卡与旁路由 IP 配置"@
                                } else if new.health_check_interval_secs == 0 {
                                    "健康检测间隔必须大于 0"@
                                } else if new.failure_threshold == 0 {
                                    "失败阈值必须大于 0"@
                                } else {
                                    "子网掩码无效"@
                                },
                            ),
                        ),
                    ),
                )
            }
        }),
{
    match new.subnet_mask {
        Some(m) => {
            lemma_masks_agree(m);
        },
        None => {},
    }
}

/// While the bypass is enabled, a new configuration with another mode, adapter, router, list
/// of name servers, mask or address takes effect at once: the switch in effect is undone,
/// and the one that the new configuration describes is made, in adapter mode after a backup.
pub proof fn changed_goal_replaces_the_switch(
    c: ControlView,
    new: ConfigView,
    h: HandleView,
    t0: Timestamp,
    t1: Timestamp,
    t2: Timestamp,
    t3: Timestamp,
)
    requires
        c.phase is Ready,
        is_acceptable(new),
        c.ctx.runtime.is_enabled,
        c.ctx.handle == Some(h),
        new.switch_mode != c.config.switch_mode || new.adapter_id != c.config.adapter_id
            || new.bypass_ip != c.config.bypass_ip || new.dns_override != c.config.dns_override
            || new.subnet_mask != c.config.subnet_mask || new.static_ip != c.config.static_ip,
    ensures
        ({
            let (c1, a1) = c.stepped(ControlEventView::Update(new), t0);
            let (c2, a2) = c1.stepped(ControlEventView::Done(Ok(())), t1);
            let (c3, a3) = c2.stepped(ControlEventView::Done(Ok(())), t2);
            let (c4, a4) = c3.stepped(ControlEventView::Done(Ok(())), t3);
            &&& a1 == Some(ControlActionView::SaveConfig(new))
            &&& a2 == Some(ControlActionView::DisableStrategy(h))
            &&& c2.monitor is None
            &&& c2.ctx.generation != c.ctx.generation
            &&& a3 == Some(ControlActionView::SaveRuntime(c3.ctx.runtime))
            &&& says_direct(c3.ctx.runtime, t2)
            &&& new.switch_mode is RouteOverlay ==> makes_switch(
                a4,
                SwitchMode::RouteOverlay,
                new,
            ) && c4.phase == PhaseView::Enabling(SwitchMode::RouteOverlay)
            &&& new.switch_mode is AdapterReconfig ==> a4 == Some(ControlActionView::ListAdapters)
                && c4.phase is ListingForBackup
            &&& c4.config == new
            &&& c4.ctx.handle is None
        }),
{
    only_acceptable_configurations_are_written(c, new, t0);
}

/// While the bypass is enabled, a new configuration that aims at the same switch but watches
/// it in another rhythm, with another patience or with another will to come back restarts
/// the monitor alone.
pub proof fn changed_rhythm_restarts_the_monitor(
    c: ControlView,
    new: ConfigView,
    t0: Timestamp,
    t1: Timestamp,
)
    requires
        c.phase is Ready,
        is_acceptable(new),
        c.ctx.runtime.is_enabled,
        c.ctx.handle is Some,
        new.switch_mode == c.config.switch_mode,
        new.adapter_id == c.config.adapter_id,
        new.bypass_ip == c.config.bypass_ip,
        new.dns_override == c.config.dns_override,
        new.subnet_mask == c.config.subnet_mask,
        new.static_ip == c.config.static_ip,
        new.health_check_interval_secs != c.config.health_check_interval_secs
            || new.failure_threshold != c.config.failure_threshold
            || new.auto_reenable_after_recovery != c.config.auto_reenable_after_recovery,
    ensures
        ({
            let (c1, a1) = c.stepped(ControlEventView::Update(new), t0);
            let (c2, a2) = c1.stepped(ControlEventView::Done(Ok(())), t1);
            &&& a1 == Some(ControlActionView::SaveConfig(new))
            &&& a2 == Some(ControlActionView::Finish(Ok(())))
            &&& c2.phase is Ready
            &&& c2.config == new
            &&& c2.ctx.handle == c.ctx.handle
            &&& c2.ctx.runtime == c.ctx.runtime
            &&& c2.ctx.generation != c.ctx.generation
            &&& watches_as(c2.monitor, new, new.switch_mode, c2.ctx.generation)
        }),
{
    only_acceptable_configurations_are_written(c, new, t0);
}

/// A new configuration is kept and nothing else happens while nothing is switched, or where
/// it differs at most in whether the user is told.
pub proof fn other_changes_are_kept_alone(
    c: ControlView,
    new: ConfigView,
    t0: Timestamp,
    t1: Timestamp,
)
    requires
        c.phase is Ready,
        is_acceptable(new),
        !c.ctx.runtime.is_enabled || c.ctx.handle is None || new == (ConfigView {
            notifications_enabled: new.notifications_enabled,
            ..c.config
        }),
    ensures
        ({
            let (c1, a1) = c.stepped(ControlEventView::Update(new), t0);
            let (c2, a2) = c1.stepped(ControlEventView::Done(Ok(())), t1);
            &&& a1 == Some(ControlActionView::SaveConfig(new))
            &&& a2 == Some(ControlActionView::Finish(Ok(())))
            &&& c2 == (ControlView { config: new, ..c })
        }),
{
    only_acceptable_configurations_are_written(c, new, t0);
}

/// The target of a configuration holds what it says of the switch.
pub proof fn target_holds_the_configuration(c: ConfigView)
    ensures
        aims_as(c.target(), c),
{
}

// ---------------------------------------------------------------------------
// Startup
// ---------------------------------------------------------------------------

/// At startup with nothing expected, overlay routes through the router are removed where a
/// router is set, then the backup goes, and nothing is switched or watched.
pub proof fn startup_direct_removes_leftovers(
    c: ControlView,
    t0: Timestamp,
    t1: Timestamp,
    t2: Timestamp,
)
    requires
        c.phase is Ready,
        !c.ctx.runtime.is_enabled,
    ensures
        ({
            let (c1, a1) = c.stepped(ControlEventView::Reconcile, t0);
            let (c2, a2) = c1.stepped(ControlEventView::Done(Ok(())), t1);
            let (c3, a3) = c2.stepped(ControlEventView::Done(Ok(())), t2);
            &&& is_set(c.config.bypass_ip) ==> {
                &&& a1 matches Some(ControlActionView::CleanupRoutes(ip))
                &&& c.config.bypass_ip == IpAddr::V4(ip)
                &&& a2 == Some(ControlActionView::ClearSnapshot)
                &&& a3 == Some(ControlActionView::Finish(Ok(())))
                &&& c3 == c
            }
            &&& !is_set(c.config.bypass_ip) ==> {
                &&& a1 == Some(ControlActionView::ClearSnapshot)
                &&& a2 == Some(ControlActionView::Finish(Ok(())))
                &&& c2 == c
            }
        }),
{
}

/// At startup with the overlay expected, it is looked for; one that is there is taken over
/// as it is and watched, and a missing one is made again.
pub proof fn startup_restores_the_overlay(
    c: ControlView,
    ip: Ipv4Addr,
    h: HandleView,
    e: ErrorView,
    t0: Timestamp,
    t1: Timestamp,
)
    requires
        c.phase is Ready,
        c.ctx.runtime.is_enabled,
        c.ctx.runtime.current_mode == Some(SwitchMode::RouteOverlay),
        c.config.bypass_ip == IpAddr::V4(ip),
        is_set(c.config.bypass_ip),
    ensures
        ({
            let (c1, a1) = c.stepped(ControlEventView::Reconcile, t0);
            let (c2, a2) = c1.stepped(ControlEventView::Overlay(Ok(Some(h))), t1);
            let (c3, a3) = c1.stepped(ControlEventView::Overlay(Ok(None)), t1);
            let (c4, a4) = c1.stepped(ControlEventView::Overlay(Err(e)), t1);
            &&& a1 == Some(ControlActionView::FindOverlay(ip))
            &&& a2 == Some(ControlActionView::Finish(Ok(())))
            &&& c2.phase is Ready
            &&& c2.config == c.config
            &&& c2.ctx.handle == Some(h)
            &&& c2.ctx.runtime == c.ctx.runtime
            &&& watches_as(c2.monitor, c.config, SwitchMode::RouteOverlay, c2.ctx.generation)
            &&& makes_switch(a3, SwitchMode::RouteOverlay, c.config)
            &&& c3.phase == PhaseView::Enabling(SwitchMode::RouteOverlay)
            &&& a4 == Some(ControlActionView::Finish(Err(e)))
            &&& c4 == c
        }),
{
}

/// At startup with the overlay expected but no router set, none is looked for: the switch
/// is made as configured.
pub proof fn startup_without_a_router_switches(c: ControlView, now: Timestamp)
    requires
        c.phase is Ready,
        c.ctx.runtime.is_enabled,
        c.ctx.runtime.current_mode == Some(SwitchMode::RouteOverlay),
        !is_set(c.config.bypass_ip),
    ensures
        makes_switch(
            c.stepped(ControlEventView::Reconcile, now).1,
            SwitchMode::RouteOverlay,
            c.config,
        ),
{
}

/// At startup with a reconfigured adapter expected, it is checked if there is a backup. The
/// adapter is taken over and watched where its first gateway is the router, and reconfigured
/// again where it is not or where the adapter is missing.
pub proof fn startup_restores_the_adapter(
    c: ControlView,
    list: Seq<AdapterView>,
    i: int,
    t0: Timestamp,
    t1: Timestamp,
    t2: Timestamp,
)
    requires
        c.phase is Ready,
        c.ctx.runtime.is_enabled,
        c.ctx.runtime.current_mode == Some(SwitchMode::AdapterReconfig),
        is_first(list, i, c.config.adapter_id),
    ensures
        ({
            let (c1, a1) = c.stepped(ControlEventView::Reconcile, t0);
            let (c2, a2) = c1.stepped(ControlEventView::Snapshot(Ok(true)), t1);
            let (c3, a3) = c2.stepped(ControlEventView::Adapters(Ok(list)), t2);
            let there = list[i].gateway.len() > 0 && list[i].gateway[0] == c.config.bypass_ip;
            &&& a1 == Some(ControlActionView::LoadSnapshot)
            &&& a2 == Some(ControlActionView::ListAdapters)
            &&& there ==> {
                &&& a3 == Some(ControlActionView::Finish(Ok(())))
                &&& c3.phase is Ready
                &&& c3.ctx.handle matches Some(h)
                &&& h.mode is AdapterReconfig
                &&& h.adapter_id == Some(c.config.adapter_id)
                &&& h.extra_routes.len() == 0
                &&& c3.ctx.runtime == c.ctx.runtime
                &&& watches_as(
                    c3.monitor,
                    c.config,
                    SwitchMode::AdapterReconfig,
                    c3.ctx.generation,
                )
            }
            &&& !there ==> {
                &&& makes_switch(a3, SwitchMode::AdapterReconfig, c.config)
                &&& c3.phase == PhaseView::Enabling(SwitchMode::AdapterReconfig)
            }
        }),
{
    lemma_first_is_found(list, i, c.config.adapter_id);
}

/// At startup a reconfigured adapter that is missing is reconfigured again, and a list that
/// cannot be had ends the operation.
pub proof fn startup_with_a_missing_adapter(
    c: ControlView,
    list: Seq<AdapterView>,
    cause: Seq<char>,
    now: Timestamp,
)
    requires
        c.phase is ListingForCheck,
        forall|k: int| 0 <= k < list.len() ==> (#[trigger] list[k]).id != c.config.adapter_id,
    ensures
        makes_switch(
            c.stepped(ControlEventView::Adapters(Ok(list)), now).1,
            SwitchMode::AdapterReconfig,
            c.config,
        ),
        c.stepped(ControlEventView::Adapters(Err(cause)), now) == (
            (ControlView { phase: PhaseView::Ready, ..c }),
            Some(
                ControlActionView::Finish(
                    Err(ErrorView::Network("枚举网卡失败: "@ + cause)),
                ),
            ),
        ),
{
    lemma_none_is_found(list, c.config.adapter_id);
}

/// At startup a reconfigured adapter without a backup is given up: traffic counts as going
/// directly, and that is recorded. A backup that cannot be read ends the operation.
pub proof fn startup_without_a_backup_gives_up(
    c: ControlView,
    e: ErrorView,
    t0: Timestamp,
    t1: Timestamp,
    t2: Timestamp,
)
    requires
        c.phase is Ready,
        c.ctx.runtime.is_enabled,
        c.ctx.runtime.current_mode == Some(SwitchMode::AdapterReconfig),
    ensures
        ({
            let c1 = c.stepped(ControlEventView::Reconcile, t0).0;
            let (c2, a2) = c1.stepped(ControlEventView::Snapshot(Ok(false)), t1);
            let (c3, a3) = c2.stepped(ControlEventView::Done(Ok(())), t2);
            let (c4, a4) = c1.stepped(ControlEventView::Snapshot(Err(e)), t1);
            &&& a2 == Some(ControlActionView::SaveRuntime(c2.ctx.runtime))
            &&& a3 == Some(ControlActionView::Finish(Ok(())))
            &&& c3.phase is Ready
            &&& says_direct(c3.ctx.runtime, t1)
            &&& c3.monitor == c.monitor
            &&& c3.ctx.handle == c.ctx.handle
            &&& a4 == Some(ControlActionView::Finish(Err(e)))
            &&& c4 == c
        }),
{
}

/// At startup with the bypass expected but no mode recorded, nothing happens.
pub proof fn startup_without_a_mode_does_nothing(c: ControlView, now: Timestamp)
    requires
        c.phase is Ready,
        c.ctx.runtime.is_enabled,
        c.ctx.runtime.current_mode is None,
    ensures
        c.stepped(ControlEventView::Reconcile, now) == (
            c,
            Some(ControlActionView::Finish(Ok(()))),
        ),
{
}

/// A controller begins with what was stored, with nothing switched and nothing watched.
pub proof fn controller_begins_with_what_was_stored(config: ConfigView, runtime: RuntimeState)
    ensures
        ({
            let c = ControlView::initial(config, runtime);
            &&& c.config == config
            &&& c.ctx.runtime == runtime
            &&& c.ctx.handle is None
            &&& c.ctx.generation == 0
            &&& c.monitor is None
            &&& c.phase is Ready
        }),
{
}

/// Whether a step belongs to the preparation of an operation: nothing is switched by it.
pub open spec fn only_prepares(c: ControlView, ev: ControlEventView) -> bool {
    match ev {
        ControlEventView::Enable => c.phase is Ready && c.ctx.handle is None,
        ControlEventView::Update(_) => c.phase is Ready,
        ControlEventView::Reconcile => c.phase is Ready,
        ControlEventView::Adapters(_) => c.phase is ListingForBackup,
        ControlEventView::Dhcp(_) => c.phase is QueryingDhcp,
        ControlEventView::Overlay(r) => c.phase is FindingOverlay && (r is Err || r->Ok_0 is None),
        ControlEventView::Snapshot(r) => c.phase is LoadingSnapshot && r != Ok::<_, ErrorView>(
            false,
        ),
        ControlEventView::Done(_) => c.phase is SavingSnapshot || c.phase is SavingDisabled
            || c.phase is CleaningRoutes || c.phase is ClearingSnapshot,
        _ => false,
    }
}

/// As long as an operation is prepared, nothing but its progress changes: the configuration,
/// the switch, the runtime state and the monitor stay as they are.
pub proof fn preparing_changes_nothing(c: ControlView, ev: ControlEventView, now: Timestamp)
    requires
        only_prepares(c, ev),
    ensures
        ({
            let next = c.stepped(ev, now).0;
            &&& next.config == c.config
            &&& next.ctx == c.ctx
            &&& next.monitor == c.monitor
        }),
{
}

/// A switch that was made changes what is held and recorded, and nothing else; one that is
/// recorded changes the monitor and its number alone.
pub proof fn making_a_switch_changes_what_it_must(
    c: ControlView,
    mode: SwitchMode,
    h: HandleView,
    now: Timestamp,
)
    ensures
        c.phase == PhaseView::Enabling(mode) ==> {
            let next = c.stepped(ControlEventView::Enabled(Ok(h)), now).0;
            &&& next.config == c.config
            &&& next.monitor == c.monitor
            &&& next.ctx.generation == c.ctx.generation
            &&& next.phase == PhaseView::SavingEnabled(mode)
        },
        c.phase == PhaseView::SavingEnabled(mode) ==> {
            let next = c.stepped(ControlEventView::Done(Ok(())), now).0;
            &&& next.config == c.config
            &&& next.ctx.handle == c.ctx.handle
            &&& next.ctx.runtime == c.ctx.runtime
            &&& numbers_on(c.ctx.generation, next.ctx.generation)
        },
{
}

/// Whether a monitor's number comes right after another.
pub open spec fn numbers_on(g: u64, next: u64) -> bool {
    next == g + 1 || (g == 0xffff_ffff_ffff_ffff && next == 0)
}

/// Disabling stops the monitor and lets go of the switch, and nothing else; what is recorded
/// stays until the switch is undone.
pub proof fn disabling_lets_go_of_the_switch(c: ControlView, now: Timestamp)
    requires
        c.phase is Ready,
    ensures
        ({
            let next = c.stepped(ControlEventView::Disable, now).0;
            &&& next.config == c.config
            &&& next.monitor is None
            &&& next.ctx.handle is None
            &&& numbers_on(c.ctx.generation, next.ctx.generation)
            &&& c.ctx.handle is Some ==> next.ctx.runtime == c.ctx.runtime
        }),
{
}

/// Monitors are numbered one after the other; after the last number the first comes again.
pub proof fn monitors_are_numbered_in_turn(g: u64)
    ensures
        g < 0xffff_ffff_ffff_ffff ==> next_generation(g) == g + 1,
        next_generation(0xffff_ffff_ffff_ffff) == 0,
        next_generation(g) != g,
{
}

/// A controller by its contents is what it has: nothing is left out or mixed up.
pub proof fn contents_settle_the_controller(c: Controller, p: ControlPhase)
    ensures
        c@.config == c.config@,
        c@.ctx == c.ctx@,
        c.monitor matches Some(m) ==> c@.monitor == Some(m@),
        c.monitor is None ==> c@.monitor is None,
        c@.phase == c.phase@,
        p is Ready ==> p@ is Ready,
        p matches ControlPhase::Disabling(a) ==> p@ == PhaseView::Disabling(a),
        p matches ControlPhase::SavingDisabled(a) ==> p@ == PhaseView::SavingDisabled(a),
        p is ListingForBackup ==> p@ is ListingForBackup,
        p matches ControlPhase::QueryingDhcp(s) ==> p@ == PhaseView::QueryingDhcp(s@),
        p is SavingSnapshot ==> p@ is SavingSnapshot,
        p matches ControlPhase::Enabling(m) ==> p@ == PhaseView::Enabling(m),
        p matches ControlPhase::SavingEnabled(m) ==> p@ == PhaseView::SavingEnabled(m),
        p matches ControlPhase::SavingConfig(x) ==> p@ == PhaseView::SavingConfig(x@),
        p is CleaningRoutes ==> p@ is CleaningRoutes,
        p is ClearingSnapshot ==> p@ is ClearingSnapshot,
        p is FindingOverlay ==> p@ is FindingOverlay,
        p is LoadingSnapshot ==> p@ is LoadingSnapshot,
        p is ListingForCheck ==> p@ is ListingForCheck,
{
}

/// What the controller is told is what the host says.
pub proof fn controller_is_told_what_the_host_says(e: ControlEvent)
    ensures
        e is Enable ==> e@ is Enable,
        e is Disable ==> e@ is Disable,
        e matches ControlEvent::Update(c) ==> e@ == ControlEventView::Update(c@),
        e is Reconcile ==> e@ is Reconcile,
        e matches ControlEvent::Done(Ok(_)) ==> e@ == ControlEventView::Done(Ok(())),
        e matches ControlEvent::Done(Err(x)) ==> e@ == ControlEventView::Done(Err(x@)),
        e matches ControlEvent::Adapters(Ok(l)) ==> e@ == ControlEventView::Adapters(
            Ok(adapters_view(l@)),
        ),
        e matches ControlEvent::Adapters(Err(x)) ==> e@ == ControlEventView::Adapters(Err(x@)),
        e matches ControlEvent::Dhcp(d) ==> e@ == ControlEventView::Dhcp(d),
        e matches ControlEvent::Enabled(Ok(h)) ==> e@ == ControlEventView::Enabled(Ok(h@)),
        e matches ControlEvent::Enabled(Err(x)) ==> e@ == ControlEventView::Enabled(Err(x@)),
        e matches ControlEvent::Overlay(Ok(Some(h))) ==> e@ == ControlEventView::Overlay(
            Ok(Some(h@)),
        ),
        e matches ControlEvent::Overlay(Ok(None)) ==> e@ == ControlEventView::Overlay(Ok(None)),
        e matches ControlEvent::Overlay(Err(x)) ==> e@ == ControlEventView::Overlay(Err(x@)),
        e matches ControlEvent::Snapshot(Ok(b)) ==> e@ == ControlEventView::Snapshot(Ok(b)),
        e matches ControlEvent::Snapshot(Err(x)) ==> e@ == ControlEventView::Snapshot(Err(x@)),
{
}

/// What the host is asked for is what the controller has decided.
pub proof fn host_is_asked_what_the_controller_decided(a: ControlAction)
    ensures
        option_view(None) is None,
        option_view(Some(a)) == Some(a@),
        a matches ControlAction::DisableStrategy(h) ==> a@ == ControlActionView::DisableStrategy(
            h@,
        ),
        a matches ControlAction::EnableStrategy(m, t) ==> a@ == ControlActionView::EnableStrategy(
            m,
            t@,
        ),
        a matches ControlAction::SaveRuntime(rs) ==> a@ == ControlActionView::SaveRuntime(rs),
        a matches ControlAction::SaveConfig(c) ==> a@ == ControlActionView::SaveConfig(c@),
        a matches ControlAction::SaveSnapshot(s) ==> a@ == ControlActionView::SaveSnapshot(s@),
        a is LoadSnapshot ==> a@ is LoadSnapshot,
        a is ClearSnapshot ==> a@ is ClearSnapshot,
        a is ListAdapters ==> a@ is ListAdapters,
        a matches ControlAction::QueryDhcp(id) ==> a@ == ControlActionView::QueryDhcp(id@),
        a matches ControlAction::FindOverlay(ip) ==> a@ == ControlActionView::FindOverlay(ip),
        a matches ControlAction::CleanupRoutes(ip) ==> a@ == ControlActionView::CleanupRoutes(ip),
        a matches ControlAction::Finish(Ok(_)) ==> a@ == ControlActionView::Finish(Ok(())),
        a matches ControlAction::Finish(Err(e)) ==> a@ == ControlActionView::Finish(Err(e@)),
{
}

} // verus!
