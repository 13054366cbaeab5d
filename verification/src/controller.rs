//! The controller: enabling, disabling, reconfiguring, and putting things right at
//! startup.
//!
//! An operation is a conversation. The host hands in a request, performs the action
//! that comes back, hands its answer in, and so on until the action is `Finish`. Only
//! one operation runs at a time. The host keeps exactly one health monitor running: the
//! one that `monitor` describes.

use vstd::prelude::*;

use crate::adapter_reconfig::{
    backup_adapter, no_adapter, reconfig_handle, snapshot_of,
};
use crate::adapters::position_of;
use crate::addr::{is_mask, is_valid_subnet_mask, zero_addr, IpAddr, Ipv4Addr};
use crate::error::{CoreError, ErrorView};
use crate::health_monitor::{CtxView, HealthCtx, HealthParams, ParamsView};
use crate::inspector::enumeration_error;
use crate::protocol::{
    adapters_view, bypass_target, find_adapter, list_view, AdapterInfo, AdapterSnapshot,
    AdapterView, AppConfig, BypassTarget, ConfigView, HandleView, HealthStatus, RuntimeState,
    SnapshotView, SwitchHandle, SwitchMode, TargetView, Timestamp,
};
use crate::text::same_text;

verus! {

/// What follows disabling.
#[derive(Debug, Clone, Copy, PartialEq, Eq, Structural)]
pub enum After {
    /// Nothing.
    Finish,
    /// The bypass is enabled again.
    Enable,
}

/// What an operation waits for.
#[derive(Debug)]
pub enum ControlPhase {
    /// Nothing: the next operation may begin.
    Ready,
    /// The switch being undone.
    Disabling(After),
    /// The runtime state being written after that.
    SavingDisabled(After),
    /// The adapters, one of which is to be backed up.
    ListingForBackup,
    /// Whether the adapter gets its address by DHCP; the rest of its state is known.
    QueryingDhcp(AdapterSnapshot),
    /// The backup being written.
    SavingSnapshot,
    /// The switch being made.
    Enabling(SwitchMode),
    /// The runtime state being written after that.
    SavingEnabled(SwitchMode),
    /// The new configuration being written.
    SavingConfig(AppConfig),
    /// Leftover routes being removed.
    CleaningRoutes,
    /// A leftover backup being removed.
    ClearingSnapshot,
    /// Whether the overlay is in effect already.
    FindingOverlay,
    /// The backup being read.
    LoadingSnapshot,
    /// The adapters, one of which is to be checked.
    ListingForCheck,
}

/// A phase by its contents.
pub enum PhaseView {
    Ready,
    Disabling(After),
    SavingDisabled(After),
    ListingForBackup,
    QueryingDhcp(SnapshotView),
    SavingSnapshot,
    Enabling(SwitchMode),
    SavingEnabled(SwitchMode),
    SavingConfig(ConfigView),
    CleaningRoutes,
    ClearingSnapshot,
    FindingOverlay,
    LoadingSnapshot,
    ListingForCheck,
}

impl View for ControlPhase {
    type V = PhaseView;

    open spec fn view(&self) -> PhaseView {
        match *self {
            ControlPhase::Ready => PhaseView::Ready,
            ControlPhase::Disabling(a) => PhaseView::Disabling(a),
            ControlPhase::SavingDisabled(a) => PhaseView::SavingDisabled(a),
            ControlPhase::ListingForBackup => PhaseView::ListingForBackup,
            ControlPhase::QueryingDhcp(s) => PhaseView::QueryingDhcp(s@),
            ControlPhase::SavingSnapshot => PhaseView::SavingSnapshot,
            ControlPhase::Enabling(m) => PhaseView::Enabling(m),
            ControlPhase::SavingEnabled(m) => PhaseView::SavingEnabled(m),
            ControlPhase::SavingConfig(c) => PhaseView::SavingConfig(c@),
            ControlPhase::CleaningRoutes => PhaseView::CleaningRoutes,
            ControlPhase::ClearingSnapshot => PhaseView::ClearingSnapshot,
            ControlPhase::FindingOverlay => PhaseView::FindingOverlay,
            ControlPhase::LoadingSnapshot => PhaseView::LoadingSnapshot,
            ControlPhase::ListingForCheck => PhaseView::ListingForCheck,
        }
    }
}

/// What the controller is told: a request, or the answer to an action.
#[derive(Debug)]
pub enum ControlEvent {
    Enable,
    Disable,
    Update(AppConfig),
    Reconcile,
    /// The action was performed, or not.
    Done(Result<(), CoreError>),
    /// The adapters, or why they cannot be listed.
    Adapters(Result<Vec<AdapterInfo>, String>),
    /// Whether the adapter gets its address by DHCP, where that is known.
    Dhcp(Option<bool>),
    /// The switch was made, or not.
    Enabled(Result<SwitchHandle, CoreError>),
    /// The overlay that is in effect already, if there is one.
    Overlay(Result<Option<SwitchHandle>, CoreError>),
    /// Whether there is a backup.
    Snapshot(Result<bool, CoreError>),
}

/// An event by its contents.
pub enum ControlEventView {
    Enable,
    Disable,
    Update(ConfigView),
    Reconcile,
    Done(Result<(), ErrorView>),
    Adapters(Result<Seq<AdapterView>, Seq<char>>),
    Dhcp(Option<bool>),
    Enabled(Result<HandleView, ErrorView>),
    Overlay(Result<Option<HandleView>, ErrorView>),
    Snapshot(Result<bool, ErrorView>),
}

impl View for ControlEvent {
    type V = ControlEventView;

    open spec fn view(&self) -> ControlEventView {
        match *self {
            ControlEvent::Enable => ControlEventView::Enable,
            ControlEvent::Disable => ControlEventView::Disable,
            ControlEvent::Update(c) => ControlEventView::Update(c@),
            ControlEvent::Reconcile => ControlEventView::Reconcile,
            ControlEvent::Done(r) => ControlEventView::Done(
                match r {
                    Ok(_) => Ok(()),
                    Err(e) => Err(e@),
                },
            ),
            ControlEvent::Adapters(r) => ControlEventView::Adapters(
                match r {
                    Ok(l) => Ok(adapters_view(l@)),
                    Err(s) => Err(s@),
                },
            ),
            ControlEvent::Dhcp(d) => ControlEventView::Dhcp(d),
            ControlEvent::Enabled(r) => ControlEventView::Enabled(
                match r {
                    Ok(h) => Ok(h@),
                    Err(e) => Err(e@),
                },
            ),
            ControlEvent::Overlay(r) => ControlEventView::Overlay(
                match r {
                    Ok(Some(h)) => Ok(Some(h@)),
                    Ok(None) => Ok(None),
                    Err(e) => Err(e@),
                },
            ),
            ControlEvent::Snapshot(r) => ControlEventView::Snapshot(
                match r {
                    Ok(b) => Ok(b),
                    Err(e) => Err(e@),
                },
            ),
        }
    }
}

/// What the host has to do for the controller.
#[derive(Debug)]
pub enum ControlAction {
    /// Undo the switch, in the way that its handle tells.
    DisableStrategy(SwitchHandle),
    /// Make the switch.
    EnableStrategy(SwitchMode, BypassTarget),
    /// Write the runtime state.
    SaveRuntime(RuntimeState),
    /// Write the configuration.
    SaveConfig(AppConfig),
    /// Write the backup.
    SaveSnapshot(AdapterSnapshot),
    /// Find out whether there is a backup.
    LoadSnapshot,
    /// Remove the backup, if there is one.
    ClearSnapshot,
    /// List the adapters.
    ListAdapters,
    /// Find out whether the adapter gets its address by DHCP.
    QueryDhcp(String),
    /// Look for an overlay through the address.
    FindOverlay(Ipv4Addr),
    /// Remove all overlay routes through the address.
    CleanupRoutes(Ipv4Addr),
    /// The operation is over.
    Finish(Result<(), CoreError>),
}

/// An action by its contents.
pub enum ControlActionView {
    DisableStrategy(HandleView),
    EnableStrategy(SwitchMode, TargetView),
    SaveRuntime(RuntimeState),
    SaveConfig(ConfigView),
    SaveSnapshot(SnapshotView),
    LoadSnapshot,
    ClearSnapshot,
    ListAdapters,
    QueryDhcp(Seq<char>),
    FindOverlay(Ipv4Addr),
    CleanupRoutes(Ipv4Addr),
    Finish(Result<(), ErrorView>),
}

impl View for ControlAction {
    type V = ControlActionView;

    open spec fn view(&self) -> ControlActionView {
        match *self {
            ControlAction::DisableStrategy(h) => ControlActionView::DisableStrategy(h@),
            ControlAction::EnableStrategy(m, t) => ControlActionView::EnableStrategy(m, t@),
            ControlAction::SaveRuntime(rs) => ControlActionView::SaveRuntime(rs),
            ControlAction::SaveConfig(c) => ControlActionView::SaveConfig(c@),
            ControlAction::SaveSnapshot(s) => ControlActionView::SaveSnapshot(s@),
            ControlAction::LoadSnapshot => ControlActionView::LoadSnapshot,
            ControlAction::ClearSnapshot => ControlActionView::ClearSnapshot,
            ControlAction::ListAdapters => ControlActionView::ListAdapters,
            ControlAction::QueryDhcp(id) => ControlActionView::QueryDhcp(id@),
            ControlAction::FindOverlay(ip) => ControlActionView::FindOverlay(ip),
            ControlAction::CleanupRoutes(ip) => ControlActionView::CleanupRoutes(ip),
            ControlAction::Finish(r) => ControlActionView::Finish(
                match r {
                    Ok(_) => Ok(()),
                    Err(e) => Err(e@),
                },
            ),
        }
    }
}

/// The controller.
#[derive(Debug)]
pub struct Controller {
    pub config: AppConfig,
    /// What is shared with the health monitor.
    pub ctx: HealthCtx,
    /// The health monitor that is to run.
    pub monitor: Option<HealthParams>,
    pub phase: ControlPhase,
}

/// A controller by its contents.
pub struct ControlView {
    pub config: ConfigView,
    pub ctx: CtxView,
    pub monitor: Option<ParamsView>,
    pub phase: PhaseView,
}

/// An optional monitor by its contents.
pub open spec fn monitor_view(m: Option<HealthParams>) -> Option<ParamsView> {
    match m {
        Some(p) => Some(p@),
        None => None,
    }
}

impl View for Controller {
    type V = ControlView;

    open spec fn view(&self) -> ControlView {
        ControlView {
            config: self.config@,
            ctx: self.ctx@,
            monitor: monitor_view(self.monitor),
            phase: self.phase@,
        }
    }
}

// ---------------------------------------------------------------------------
// What a step comes to
// ---------------------------------------------------------------------------

/// Whether the address can be that of a bypass router.
pub open spec fn is_router(ip: IpAddr) -> bool {
    ip matches IpAddr::V4(v4) && v4 != zero_addr()
}

/// Whether the configuration says where to send traffic.
pub open spec fn is_complete(c: ConfigView) -> bool {
    c.adapter_id.len() > 0 && is_router(c.bypass_ip)
}

/// What is wrong with a configuration, if anything is. Only the reconfiguration of the
/// adapter uses the mask, and what is no mask cannot be set.
pub open spec fn config_fault(c: ConfigView) -> Option<ErrorView> {
    if !is_complete(c) {
        Some(ErrorView::ConfigIncomplete("请先在设置中完成网卡与旁路由 IP 配置"@))
    } else if c.health_check_interval_secs == 0 {
        Some(ErrorView::ConfigIncomplete("健康检测间隔必须大于 0"@))
    } else if c.failure_threshold == 0 {
        Some(ErrorView::ConfigIncomplete("失败阈值必须大于 0"@))
    } else if c.switch_mode is AdapterReconfig && (c.subnet_mask matches Some(m) && !is_mask(m)) {
        Some(ErrorView::ConfigIncomplete("子网掩码无效"@))
    } else {
        None
    }
}

/// A number, but at least one.
pub open spec fn at_least_one(n: u32) -> u32 {
    if n < 1 {
        1
    } else {
        n
    }
}

/// The generation after another; the count begins anew after the last one.
pub open spec fn next_generation(g: u64) -> u64 {
    if g < u64::MAX {
        (g + 1) as u64
    } else {
        0
    }
}

/// Whether two configurations switch differently.
pub open spec fn switches_differently(a: ConfigView, b: ConfigView) -> bool {
    a.switch_mode != b.switch_mode || a.target() != b.target()
}

/// Whether two configurations monitor differently.
pub open spec fn monitors_differently(a: ConfigView, b: ConfigView) -> bool {
    ||| a.health_check_interval_secs != b.health_check_interval_secs
    ||| a.failure_threshold != b.failure_threshold
    ||| a.auto_reenable_after_recovery != b.auto_reenable_after_recovery
}

/// What a step leaves behind.
pub type ControlStep = (ControlView, Option<ControlActionView>);

impl ControlView {
    /// A controller with what was stored, before anything runs.
    pub open spec fn initial(config: ConfigView, runtime: RuntimeState) -> ControlView {
        ControlView {
            config,
            ctx: CtxView { handle: None, runtime, generation: 0 },
            monitor: None,
            phase: PhaseView::Ready,
        }
    }

    /// The operation is over.
    pub open spec fn finished(self, r: Result<(), ErrorView>) -> ControlStep {
        (
            ControlView { phase: PhaseView::Ready, ..self },
            Some(ControlActionView::Finish(r)),
        )
    }

    /// The operation goes on once the action has been answered.
    pub open spec fn asks(self, phase: PhaseView, action: ControlActionView) -> ControlStep {
        (ControlView { phase, ..self }, Some(action))
    }

    /// The health monitor is stopped: whatever it still does is stale.
    pub open spec fn stopped(self) -> ControlView {
        ControlView {
            ctx: CtxView { generation: next_generation(self.ctx.generation), ..self.ctx },
            monitor: None,
            ..self
        }
    }

    /// A new health monitor is started in place of any other.
    pub open spec fn monitored(self, mode: SwitchMode) -> ControlView {
        let s = self.stopped();
        ControlView {
            monitor: Some(
                ParamsView {
                    mode,
                    target: self.config.target(),
                    interval_secs: at_least_one(self.config.health_check_interval_secs) as u64,
                    threshold: at_least_one(self.config.failure_threshold),
                    auto_reenable: self.config.auto_reenable_after_recovery,
                    generation: s.ctx.generation,
                },
            ),
            ..s
        }
    }

    /// With the given switch and runtime state.
    pub open spec fn holding(self, handle: Option<HandleView>, runtime: RuntimeState) -> ControlView {
        ControlView { ctx: CtxView { handle, runtime, ..self.ctx }, ..self }
    }

    /// The bypass is disabled, and that is written down.
    pub open spec fn now_disabled(self, next: After, now: Timestamp) -> ControlStep {
        let rs = RuntimeState::initial(now);
        self.holding(self.ctx.handle, rs).asks(
            PhaseView::SavingDisabled(next),
            ControlActionView::SaveRuntime(rs),
        )
    }

    /// The bypass is enabled, and that is written down.
    pub open spec fn now_enabled(self, mode: SwitchMode, h: HandleView, now: Timestamp) -> ControlStep {
        let rs = RuntimeState {
            is_enabled: true,
            current_mode: Some(mode),
            health: HealthStatus::Healthy,
            last_updated: now,
        };
        self.holding(Some(h), rs).asks(
            PhaseView::SavingEnabled(mode),
            ControlActionView::SaveRuntime(rs),
        )
    }

    /// The switch is made.
    pub open spec fn switching(self, mode: SwitchMode) -> ControlStep {
        self.asks(
            PhaseView::Enabling(mode),
            ControlActionView::EnableStrategy(mode, self.config.target()),
        )
    }

    /// The switch is prepared: before an adapter is reconfigured, it is backed up.
    pub open spec fn preparing(self) -> ControlStep {
        match self.config.switch_mode {
            SwitchMode::AdapterReconfig => self.asks(
                PhaseView::ListingForBackup,
                ControlActionView::ListAdapters,
            ),
            SwitchMode::RouteOverlay => self.switching(SwitchMode::RouteOverlay),
        }
    }

    /// The bypass is to be disabled: monitoring stops, and a switch is undone.
    pub open spec fn disabling(self, next: After, now: Timestamp) -> ControlStep {
        let s = self.stopped();
        match s.ctx.handle {
            Some(h) => s.holding(None, s.ctx.runtime).asks(
                PhaseView::Disabling(next),
                ControlActionView::DisableStrategy(h),
            ),
            None => s.now_disabled(next, now),
        }
    }

    /// The bypass is to be enabled: a switch that is in effect is undone first.
    pub open spec fn enabling(self, now: Timestamp) -> ControlStep {
        if !is_complete(self.config) {
            self.finished(
                Err(
                    ErrorView::ConfigIncomplete("请先在设置中完成网卡与旁路由 IP 配置"@),
                ),
            )
        } else if self.ctx.handle is Some {
            self.disabling(After::Enable, now)
        } else {
            self.preparing()
        }
    }

    /// The configuration has been written: it takes effect at once.
    pub open spec fn updated(self, config: ConfigView, now: Timestamp) -> ControlStep {
        let c = ControlView { config, ..self };
        if !self.ctx.runtime.is_enabled || self.ctx.handle is None {
            c.finished(Ok(()))
        } else if switches_differently(self.config, config) {
            c.enabling(now)
        } else if monitors_differently(self.config, config) {
            c.monitored(config.switch_mode).finished(Ok(()))
        } else {
            c.finished(Ok(()))
        }
    }

    /// The state is to be put right at startup, by what the runtime state expects.
    pub open spec fn reconciling(self) -> ControlStep {
        let rs = self.ctx.runtime;
        match (rs.is_enabled, rs.current_mode) {
            (false, _) => match self.config.bypass_ip {
                IpAddr::V4(ip) if ip != zero_addr() => self.asks(
                    PhaseView::CleaningRoutes,
                    ControlActionView::CleanupRoutes(ip),
                ),
                _ => self.asks(PhaseView::ClearingSnapshot, ControlActionView::ClearSnapshot),
            },
            (true, None) => self.finished(Ok(())),
            (true, Some(SwitchMode::RouteOverlay)) => match self.config.bypass_ip {
                IpAddr::V4(ip) if ip != zero_addr() => self.asks(
                    PhaseView::FindingOverlay,
                    ControlActionView::FindOverlay(ip),
                ),
                _ => self.switching(SwitchMode::RouteOverlay),
            },
            (true, Some(SwitchMode::AdapterReconfig)) => self.asks(
                PhaseView::LoadingSnapshot,
                ControlActionView::LoadSnapshot,
            ),
        }
    }

    /// A switch that is in effect already is taken over.
    pub open spec fn adopting(self, mode: SwitchMode, h: HandleView) -> ControlStep {
        self.holding(Some(h), self.ctx.runtime).monitored(mode).finished(Ok(()))
    }

    /// Whether the adapter sends its traffic to the router.
    pub open spec fn gateway_ok(self, list: Seq<AdapterView>) -> bool {
        find_adapter(list, self.config.adapter_id) matches Some(a) && a.gateway.len() > 0
            && a.gateway[0] == self.config.bypass_ip
    }

    /// What one step of the controller comes to.
    pub open spec fn stepped(self, ev: ControlEventView, now: Timestamp) -> ControlStep {
        match (self.phase, ev) {
            (PhaseView::Ready, ControlEventView::Enable) => self.enabling(now),
            (PhaseView::Ready, ControlEventView::Disable) => self.disabling(After::Finish, now),
            (PhaseView::Ready, ControlEventView::Update(c)) => match config_fault(c) {
                Some(e) => self.finished(Err(e)),
                None => self.asks(PhaseView::SavingConfig(c), ControlActionView::SaveConfig(c)),
            },
            (PhaseView::Ready, ControlEventView::Reconcile) => self.reconciling(),
            (PhaseView::Disabling(next), ControlEventView::Done(r)) => match r {
                Ok(_) => self.now_disabled(next, now),
                Err(e) => self.finished(Err(e)),
            },
            (PhaseView::SavingDisabled(next), ControlEventView::Done(r)) => match (r, next) {
                (Ok(_), After::Enable) => self.preparing(),
                _ => self.finished(r),
            },
            (PhaseView::ListingForBackup, ControlEventView::Adapters(r)) => match r {
                Err(s) => self.finished(Err(ErrorView::Network("枚举网卡失败: "@ + s))),
                Ok(list) => match find_adapter(list, self.config.adapter_id) {
                    None => self.finished(Err(no_adapter(self.config.adapter_id))),
                    Some(a) => self.asks(
                        PhaseView::QueryingDhcp(snapshot_of(a, None)),
                        ControlActionView::QueryDhcp(self.config.adapter_id),
                    ),
                },
            },
            (PhaseView::QueryingDhcp(s), ControlEventView::Dhcp(d)) => self.asks(
                PhaseView::SavingSnapshot,
                ControlActionView::SaveSnapshot(
                    SnapshotView { is_dhcp_enabled: d == Some(true), ..s },
                ),
            ),
            (PhaseView::SavingSnapshot, ControlEventView::Done(r)) => match r {
                Ok(_) => self.switching(SwitchMode::AdapterReconfig),
                Err(e) => self.finished(Err(e)),
            },
            (PhaseView::Enabling(mode), ControlEventView::Enabled(r)) => match r {
                Ok(h) => self.now_enabled(mode, h, now),
                Err(e) => self.finished(Err(e)),
            },
            (PhaseView::SavingEnabled(mode), ControlEventView::Done(r)) => match r {
                Ok(_) => self.monitored(mode).finished(Ok(())),
                Err(e) => self.finished(Err(e)),
            },
            (PhaseView::SavingConfig(c), ControlEventView::Done(r)) => match r {
                Ok(_) => self.updated(c, now),
                Err(e) => self.finished(Err(e)),
            },
            (PhaseView::CleaningRoutes, ControlEventView::Done(r)) => match r {
                Ok(_) => self.asks(
                    PhaseView::ClearingSnapshot,
                    ControlActionView::ClearSnapshot,
                ),
                Err(e) => self.finished(Err(e)),
            },
            (PhaseView::ClearingSnapshot, ControlEventView::Done(r)) => self.finished(r),
            (PhaseView::FindingOverlay, ControlEventView::Overlay(r)) => match r {
                Ok(Some(h)) => self.adopting(SwitchMode::RouteOverlay, h),
                Ok(None) => self.switching(SwitchMode::RouteOverlay),
                Err(e) => self.finished(Err(e)),
            },
            (PhaseView::LoadingSnapshot, ControlEventView::Snapshot(r)) => match r {
                Ok(true) => self.asks(PhaseView::ListingForCheck, ControlActionView::ListAdapters),
                Ok(false) => self.now_disabled(After::Finish, now),
                Err(e) => self.finished(Err(e)),
            },
            (PhaseView::ListingForCheck, ControlEventView::Adapters(r)) => match r {
                Err(s) => self.finished(Err(ErrorView::Network("枚举网卡失败: "@ + s))),
                Ok(list) => if self.gateway_ok(list) {
                    self.adopting(
                        SwitchMode::AdapterReconfig,
                        reconfig_handle(self.config.adapter_id),
                    )
                } else {
                    self.switching(SwitchMode::AdapterReconfig)
                },
            },
            _ => (self, None),
        }
    }
}

// ---------------------------------------------------------------------------
// The controller
// ---------------------------------------------------------------------------

/// Whether the address can be that of a bypass router.
pub fn is_valid_ipv4(ip: &IpAddr) -> (r: bool)
    ensures
        r == is_router(*ip),
{
    match ip {
        IpAddr::V4(v4) => !v4.is_unspecified(),
        IpAddr::V6(_) => false,
    }
}

fn check_complete(c: &AppConfig) -> (r: bool)
    ensures
        r == is_complete(c@),
{
    let empty = same_text(c.adapter_id.as_str(), "");
    proof {
        reveal_strlit("");
        if c.adapter_id@.len() == 0 {
            assert(c.adapter_id@ =~= ""@);
        }
    }
    !empty && is_valid_ipv4(&c.bypass_ip)
}

fn incomplete() -> (e: CoreError)
    ensures
        e@ == ErrorView::ConfigIncomplete("请先在设置中完成网卡与旁路由 IP 配置"@),
{
    CoreError::ConfigIncomplete("请先在设置中完成网卡与旁路由 IP 配置".to_owned())
}

/// What is wrong with a configuration, if anything is.
pub fn validate_config(c: &AppConfig) -> (r: Result<(), CoreError>)
    ensures
        match config_fault(c@) {
            Some(f) => r matches Err(e) && e@ == f,
            None => r is Ok,
        },
{
    if !check_complete(c) {
        return Err(incomplete());
    }
    if c.health_check_interval_secs == 0 {
        return Err(CoreError::ConfigIncomplete("健康检测间隔必须大于 0".to_owned()));
    }
    if c.failure_threshold == 0 {
        return Err(CoreError::ConfigIncomplete("失败阈值必须大于 0".to_owned()));
    }
    match (c.switch_mode, c.subnet_mask) {
        (SwitchMode::AdapterReconfig, Some(m)) => {
            if !is_valid_subnet_mask(m) {
                return Err(CoreError::ConfigIncomplete("子网掩码无效".to_owned()));
            }
        },
        _ => {},
    }
    Ok(())
}

fn same_ips(a: &Vec<IpAddr>, b: &Vec<IpAddr>) -> (r: bool)
    ensures
        r == (a@ == b@),
{
    if a.len() != b.len() {
        return false;
    }
    let mut i: usize = 0;
    while i < a.len()
        invariant
            a@.len() == b@.len(),
            i <= a@.len(),
            forall|k: int| 0 <= k < i ==> a@[k] == b@[k],
        decreases a@.len() - i,
    {
        if a[i] != b[i] {
            return false;
        }
        i = i + 1;
    }
    assert(a@ =~= b@);
    true
}

fn same_list(a: &Option<Vec<IpAddr>>, b: &Option<Vec<IpAddr>>) -> (r: bool)
    ensures
        r == (list_view(*a) == list_view(*b)),
{
    match (a, b) {
        (Some(x), Some(y)) => same_ips(x, y),
        (None, None) => true,
        _ => false,
    }
}

fn same_address(a: &Option<Ipv4Addr>, b: &Option<Ipv4Addr>) -> (r: bool)
    ensures
        r == (*a == *b),
{
    match (a, b) {
        (Some(x), Some(y)) => *x == *y,
        (None, None) => true,
        _ => false,
    }
}

fn differs(a: &AppConfig, b: &AppConfig) -> (r: bool)
    ensures
        r == switches_differently(a@, b@),
{
    let same = a.switch_mode == b.switch_mode && same_text(
        a.adapter_id.as_str(),
        b.adapter_id.as_str(),
    ) && a.bypass_ip == b.bypass_ip && same_list(&a.dns_override, &b.dns_override) && same_address(
        &a.subnet_mask,
        &b.subnet_mask,
    ) && same_address(&a.static_ip, &b.static_ip);
    !same
}

impl Controller {
    /// A controller with what was stored, before anything runs.
    pub fn new(config: AppConfig, runtime: RuntimeState) -> (c: Controller)
        ensures
            c@ == ControlView::initial(config@, runtime),
    {
        Controller {
            config,
            ctx: HealthCtx { handle: None, runtime, generation: 0 },
            monitor: None,
            phase: ControlPhase::Ready,
        }
    }

    /// Begins to enable the bypass.
    pub fn enable(&mut self, now: Timestamp) -> (a: Option<ControlAction>)
        ensures
            (final(self)@, option_view(a)) == old(self)@.stepped(ControlEventView::Enable, now),
    {
        self.step(ControlEvent::Enable, now)
    }

    /// Begins to disable the bypass.
    pub fn disable(&mut self, now: Timestamp) -> (a: Option<ControlAction>)
        ensures
            (final(self)@, option_view(a)) == old(self)@.stepped(ControlEventView::Disable, now),
    {
        self.step(ControlEvent::Disable, now)
    }

    /// Begins to change the configuration.
    pub fn update_config(&mut self, config: AppConfig, now: Timestamp) -> (a: Option<ControlAction>)
        ensures
            (final(self)@, option_view(a)) == old(self)@.stepped(
                ControlEventView::Update(config@),
                now,
            ),
    {
        self.step(ControlEvent::Update(config), now)
    }

    /// Begins to put the state right at startup.
    pub fn reconcile_on_startup(&mut self, now: Timestamp) -> (a: Option<ControlAction>)
        ensures
            (final(self)@, option_view(a)) == old(self)@.stepped(ControlEventView::Reconcile, now),
    {
        self.step(ControlEvent::Reconcile, now)
    }

    fn finish(&mut self, r: Result<(), CoreError>) -> (a: Option<ControlAction>)
        ensures
            (final(self)@, option_view(a)) == old(self)@.finished(
                match r {
                    Ok(_) => Ok(()),
                    Err(e) => Err(e@),
                },
            ),
    {
        self.phase = ControlPhase::Ready;
        Some(ControlAction::Finish(r))
    }

    fn ask(&mut self, phase: ControlPhase, action: ControlAction) -> (a: Option<ControlAction>)
        ensures
            (final(self)@, option_view(a)) == old(self)@.asks(phase@, action@),
    {
        self.phase = phase;
        Some(action)
    }

    fn stop_health_monitor(&mut self)
        ensures
            final(self)@ == old(self)@.stopped(),
    {
        let g = self.ctx.generation;
        self.ctx.generation =
        if g < u64::MAX {
            g + 1
        } else {
            0
        };
        self.monitor = None;
    }

    fn start_health_monitor(&mut self, mode: SwitchMode)
        ensures
            final(self)@ == old(self)@.monitored(mode),
    {
        self.stop_health_monitor();
        let interval = self.config.health_check_interval_secs;
        let threshold = self.config.failure_threshold;
        let secs: u64 = if interval < 1 {
            1
        } else {
            interval as u64
        };
        self.monitor =
        Some(
            HealthParams {
                mode,
                target: bypass_target(&self.config),
                interval_secs: secs,
                threshold: if threshold < 1 {
                    1
                } else {
                    threshold
                },
                auto_reenable: self.config.auto_reenable_after_recovery,
                generation: self.ctx.generation,
            },
        );
    }

    fn mark_disabled(&mut self, next: After, now: Timestamp) -> (a: Option<ControlAction>)
        ensures
            (final(self)@, option_view(a)) == old(self)@.now_disabled(next, now),
    {
        self.ctx.runtime = RuntimeState::default_at(now);
        let rs = self.ctx.runtime;
        self.ask(ControlPhase::SavingDisabled(next), ControlAction::SaveRuntime(rs))
    }

    fn mark_enabled(&mut self, mode: SwitchMode, h: SwitchHandle, now: Timestamp) -> (a: Option<
        ControlAction,
    >)
        ensures
            (final(self)@, option_view(a)) == old(self)@.now_enabled(mode, h@, now),
    {
        self.ctx.handle = Some(h);
        self.ctx.runtime =
        RuntimeState {
            is_enabled: true,
            current_mode: Some(mode),
            health: HealthStatus::Healthy,
            last_updated: now,
        };
        let rs = self.ctx.runtime;
        self.ask(ControlPhase::SavingEnabled(mode), ControlAction::SaveRuntime(rs))
    }

    fn switch(&mut self, mode: SwitchMode) -> (a: Option<ControlAction>)
        ensures
            (final(self)@, option_view(a)) == old(self)@.switching(mode),
    {
        let target = bypass_target(&self.config);
        self.ask(ControlPhase::Enabling(mode), ControlAction::EnableStrategy(mode, target))
    }

    fn prepare(&mut self) -> (a: Option<ControlAction>)
        ensures
            (final(self)@, option_view(a)) == old(self)@.preparing(),
    {
        match self.config.switch_mode {
            SwitchMode::AdapterReconfig => self.ask(
                ControlPhase::ListingForBackup,
                ControlAction::ListAdapters,
            ),
            SwitchMode::RouteOverlay => self.switch(SwitchMode::RouteOverlay),
        }
    }

    fn begin_disable(&mut self, next: After, now: Timestamp) -> (a: Option<ControlAction>)
        ensures
            (final(self)@, option_view(a)) == old(self)@.disabling(next, now),
    {
        self.stop_health_monitor();
        let handle = self.ctx.handle.take();
        match handle {
            Some(h) => self.ask(ControlPhase::Disabling(next), ControlAction::DisableStrategy(h)),
            None => self.mark_disabled(next, now),
        }
    }

    fn begin_enable(&mut self, now: Timestamp) -> (a: Option<ControlAction>)
        ensures
            (final(self)@, option_view(a)) == old(self)@.enabling(now),
    {
        if !check_complete(&self.config) {
            return self.finish(Err(incomplete()));
        }
        if self.ctx.handle.is_some() {
            self.begin_disable(After::Enable, now)
        } else {
            self.prepare()
        }
    }

    fn apply_config(&mut self, config: AppConfig, now: Timestamp) -> (a: Option<ControlAction>)
        ensures
            (final(self)@, option_view(a)) == old(self)@.updated(config@, now),
    {
        let switch = differs(&self.config, &config);
        let monitor = self.config.health_check_interval_secs != config.health_check_interval_secs
            || self.config.failure_threshold != config.failure_threshold
            || self.config.auto_reenable_after_recovery != config.auto_reenable_after_recovery;
        self.config = config;
        if !self.ctx.runtime.is_enabled || self.ctx.handle.is_none() {
            return self.finish(Ok(()));
        }
        if switch {
            return self.begin_enable(now);
        }
        if monitor {
            let mode = self.config.switch_mode;
            self.start_health_monitor(mode);
        }
        self.finish(Ok(()))
    }

    fn begin_reconcile(&mut self) -> (a: Option<ControlAction>)
        ensures
            (final(self)@, option_view(a)) == old(self)@.reconciling(),
    {
        if !self.ctx.runtime.is_enabled {
            if is_valid_ipv4(&self.config.bypass_ip) {
                if let IpAddr::V4(ip) = self.config.bypass_ip {
                    return self.ask(
                        ControlPhase::CleaningRoutes,
                        ControlAction::CleanupRoutes(ip),
                    );
                }
            }
            return self.ask(ControlPhase::ClearingSnapshot, ControlAction::ClearSnapshot);
        }
        match self.ctx.runtime.current_mode {
            None => self.finish(Ok(())),
            Some(SwitchMode::RouteOverlay) => {
                if is_valid_ipv4(&self.config.bypass_ip) {
                    if let IpAddr::V4(ip) = self.config.bypass_ip {
                        return self.ask(
                            ControlPhase::FindingOverlay,
                            ControlAction::FindOverlay(ip),
                        );
                    }
                }
                self.switch(SwitchMode::RouteOverlay)
            },
            Some(SwitchMode::AdapterReconfig) => self.ask(
                ControlPhase::LoadingSnapshot,
                ControlAction::LoadSnapshot,
            ),
        }
    }

    fn adopt(&mut self, mode: SwitchMode, h: SwitchHandle) -> (a: Option<ControlAction>)
        ensures
            (final(self)@, option_view(a)) == old(self)@.adopting(mode, h@),
    {
        self.ctx.handle = Some(h);
        self.start_health_monitor(mode);
        self.finish(Ok(()))
    }

    fn back_up(&mut self, list: Vec<AdapterInfo>) -> (a: Option<ControlAction>)
        ensures
            (final(self)@, option_view(a)) == match find_adapter(
                adapters_view(list@),
                old(self)@.config.adapter_id,
            ) {
                None => old(self)@.finished(Err(no_adapter(old(self)@.config.adapter_id))),
                Some(x) => old(self)@.asks(
                    PhaseView::QueryingDhcp(snapshot_of(x, None)),
                    ControlActionView::QueryDhcp(old(self)@.config.adapter_id),
                ),
            },
    {
        match backup_adapter(&list, self.config.adapter_id.as_str(), None) {
            Ok(snap) => {
                let id = self.config.adapter_id.clone();
                self.ask(ControlPhase::QueryingDhcp(snap), ControlAction::QueryDhcp(id))
            },
            Err(e) => self.finish(Err(e)),
        }
    }

    fn check_adapter(&mut self, list: Vec<AdapterInfo>) -> (a: Option<ControlAction>)
        ensures
            (final(self)@, option_view(a)) == if old(self)@.gateway_ok(adapters_view(list@)) {
                old(self)@.adopting(
                    SwitchMode::AdapterReconfig,
                    reconfig_handle(old(self)@.config.adapter_id),
                )
            } else {
                old(self)@.switching(SwitchMode::AdapterReconfig)
            },
    {
        let ok = match position_of(&list, self.config.adapter_id.as_str()) {
            Some(i) => list[i].gateway.len() > 0 && list[i].gateway[0] == self.config.bypass_ip,
            None => false,
        };
        if ok {
            let h = SwitchHandle {
                mode: SwitchMode::AdapterReconfig,
                if_index: None,
                if_luid: None,
                destination_prefix: None,
                next_hop: None,
                adapter_id: Some(self.config.adapter_id.clone()),
                extra_routes: Vec::new(),
            };
            assert(h@.extra_routes =~= reconfig_handle(self.config.adapter_id@).extra_routes);
            self.adopt(SwitchMode::AdapterReconfig, h)
        } else {
            self.switch(SwitchMode::AdapterReconfig)
        }
    }

    /// A request while no operation runs.
    fn request(&mut self, ev: ControlEvent, now: Timestamp) -> (a: Option<ControlAction>)
        requires
            old(self).phase is Ready,
        ensures
            (final(self)@, option_view(a)) == old(self)@.stepped(ev@, now),
    {
        match ev {
            ControlEvent::Enable => self.begin_enable(now),
            ControlEvent::Disable => self.begin_disable(After::Finish, now),
            ControlEvent::Update(c) => match validate_config(&c) {
                Err(e) => self.finish(Err(e)),
                Ok(_) => {
                    let copy = c.clone();
                    self.ask(ControlPhase::SavingConfig(c), ControlAction::SaveConfig(copy))
                },
            },
            ControlEvent::Reconcile => self.begin_reconcile(),
            _ => None,
        }
    }

    /// What was asked for in the phase has been done.
    fn done(&mut self, phase: ControlPhase, now: Timestamp) -> (a: Option<ControlAction>)
        ensures
            (final(self)@, option_view(a)) == (ControlView {
                phase: phase@,
                ..old(self)@
            }).stepped(ControlEventView::Done(Ok(())), now),
    {
        match phase {
            ControlPhase::Disabling(next) => self.mark_disabled(next, now),
            ControlPhase::SavingDisabled(After::Enable) => self.prepare(),
            ControlPhase::SavingDisabled(After::Finish) => self.finish(Ok(())),
            ControlPhase::SavingSnapshot => self.switch(SwitchMode::AdapterReconfig),
            ControlPhase::SavingEnabled(mode) => {
                self.start_health_monitor(mode);
                self.finish(Ok(()))
            },
            ControlPhase::SavingConfig(c) => self.apply_config(c, now),
            ControlPhase::CleaningRoutes => self.ask(
                ControlPhase::ClearingSnapshot,
                ControlAction::ClearSnapshot,
            ),
            ControlPhase::ClearingSnapshot => self.finish(Ok(())),
            waiting => {
                self.phase = waiting;
                None
            },
        }
    }

    /// What was asked for in the phase could not be done.
    fn failed(&mut self, phase: ControlPhase, e: CoreError, now: Timestamp) -> (a: Option<
        ControlAction,
    >)
        ensures
            (final(self)@, option_view(a)) == (ControlView {
                phase: phase@,
                ..old(self)@
            }).stepped(ControlEventView::Done(Err(e@)), now),
    {
        match phase {
            ControlPhase::Disabling(_) | ControlPhase::SavingDisabled(_)
            | ControlPhase::SavingSnapshot | ControlPhase::SavingEnabled(_)
            | ControlPhase::SavingConfig(_) | ControlPhase::CleaningRoutes
            | ControlPhase::ClearingSnapshot => self.finish(Err(e)),
            waiting => {
                self.phase = waiting;
                None
            },
        }
    }

    /// An answer that brings something with it has come in the phase.
    fn told(&mut self, phase: ControlPhase, ev: ControlEvent, now: Timestamp) -> (a: Option<
        ControlAction,
    >)
        requires
            !(phase is Ready),
            !(ev is Done),
        ensures
            (final(self)@, option_view(a)) == (ControlView {
                phase: phase@,
                ..old(self)@
            }).stepped(ev@, now),
    {
        match (phase, ev) {
            (ControlPhase::ListingForBackup, ControlEvent::Adapters(r)) => match r {
                Err(s) => self.finish(Err(enumeration_error(s.as_str()))),
                Ok(list) => self.back_up(list),
            },
            (ControlPhase::QueryingDhcp(s), ControlEvent::Dhcp(d)) => {
                let mut snap = s;
                snap.is_dhcp_enabled =
                match d {
                    Some(b) => b,
                    None => false,
                };
                self.ask(ControlPhase::SavingSnapshot, ControlAction::SaveSnapshot(snap))
            },
            (ControlPhase::Enabling(mode), ControlEvent::Enabled(r)) => match r {
                Ok(h) => self.mark_enabled(mode, h, now),
                Err(e) => self.finish(Err(e)),
            },
            (ControlPhase::FindingOverlay, ControlEvent::Overlay(r)) => match r {
                Ok(Some(h)) => self.adopt(SwitchMode::RouteOverlay, h),
                Ok(None) => self.switch(SwitchMode::RouteOverlay),
                Err(e) => self.finish(Err(e)),
            },
            (ControlPhase::LoadingSnapshot, ControlEvent::Snapshot(r)) => match r {
                Ok(true) => self.ask(ControlPhase::ListingForCheck, ControlAction::ListAdapters),
                Ok(false) => self.mark_disabled(After::Finish, now),
                Err(e) => self.finish(Err(e)),
            },
            (ControlPhase::ListingForCheck, ControlEvent::Adapters(r)) => match r {
                Err(s) => self.finish(Err(enumeration_error(s.as_str()))),
                Ok(list) => self.check_adapter(list),
            },
            (waiting, _) => {
                self.phase = waiting;
                None
            },
        }
    }

    /// One step of the controller: takes a request or an answer in and says what the
    /// host has to do. What does not suit the phase is ignored.
    pub fn step(&mut self, ev: ControlEvent, now: Timestamp) -> (a: Option<ControlAction>)
        ensures
            (final(self)@, option_view(a)) == old(self)@.stepped(ev@, now),
    {
        let mut phase = ControlPhase::Ready;
        std::mem::swap(&mut phase, &mut self.phase);
        match (phase, ev) {
            (ControlPhase::Ready, ev) => self.request(ev, now),
            (phase, ControlEvent::Done(Ok(_))) => self.done(phase, now),
            (phase, ControlEvent::Done(Err(e))) => self.failed(phase, e, now),
            (phase, ev) => self.told(phase, ev, now),
        }
    }
}

/// An optional action by its contents.
pub open spec fn option_view(a: Option<ControlAction>) -> Option<ControlActionView> {
    match a {
        Some(x) => Some(x@),
        None => None,
    }
}

} // verus!
