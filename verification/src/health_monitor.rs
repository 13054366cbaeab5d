//! The health monitor: probes the bypass router, counts failures and gives up at a
//! threshold.
//!
//! One round of the monitor is a little state machine. The host performs the actions
//! that a step returns, in order, and hands the answer of the last one back as the next
//! event. Between two steps the shared context may change; the generation tells a
//! monitor that it has been replaced.

use vstd::prelude::*;

use crate::addr::IpAddr;
use crate::error::CoreError;
use crate::number::{dec, dec_text};
use crate::protocol::{
    handle_view, BypassTarget, EventTypeView, EventView, HandleView, HealthEvent, HealthEventType,
    HealthStatus, RuntimeState, SwitchHandle, SwitchMode, TargetView, Timestamp,
};
use crate::text::concat5;

verus! {

/// How long a single probe may take, in milliseconds.
pub const PING_TIMEOUT_MS: u32 = 3000;

/// What the monitor thinks of the bypass.
#[derive(Debug, Clone, Copy, PartialEq, Eq, Structural)]
pub enum HealthState {
    /// The bypass is not enabled.
    Idle,
    /// Enabled and reachable.
    Healthy,
    /// So many probes in a row have failed.
    Degraded(u32),
    /// Given up: traffic goes directly.
    Fallback,
}

/// What a round of the monitor is waiting for.
#[derive(Debug, Clone, Copy, PartialEq, Eq, Structural)]
pub enum TickPhase {
    /// Nothing: the next round may begin.
    Ready,
    /// The answer of a probe.
    Probing,
    /// Whether the switch is still in effect.
    Checking,
    /// The switch being made again because it was lost.
    Rebuilding,
    /// The switch being made again after a fallback.
    Reenabling,
    /// The switch being undone; `first` tells a first failure from repeated ones.
    FallingBack { first: bool, count: u32 },
    /// A switch being undone that was made after the monitor had been replaced.
    Undoing,
}

/// A monitor: what it thinks and what it waits for.
#[derive(Debug, Clone, Copy, PartialEq, Eq, Structural)]
pub struct HealthLoop {
    pub state: HealthState,
    pub phase: TickPhase,
}

/// What the monitor shares with the controller.
#[derive(Debug)]
pub struct HealthCtx {
    /// The switch in effect.
    pub handle: Option<SwitchHandle>,
    pub runtime: RuntimeState,
    /// Grows each time that monitors are replaced.
    pub generation: u64,
}

/// The shared context by its contents.
pub struct CtxView {
    pub handle: Option<HandleView>,
    pub runtime: RuntimeState,
    pub generation: u64,
}

impl View for HealthCtx {
    type V = CtxView;

    open spec fn view(&self) -> CtxView {
        CtxView {
            handle: handle_view(self.handle),
            runtime: self.runtime,
            generation: self.generation,
        }
    }
}

/// What a monitor was started with.
#[derive(Debug)]
pub struct HealthParams {
    pub mode: SwitchMode,
    pub target: BypassTarget,
    pub interval_secs: u64,
    pub threshold: u32,
    pub auto_reenable: bool,
    /// The generation that the monitor belongs to.
    pub generation: u64,
}

/// Parameters by their contents.
pub struct ParamsView {
    pub mode: SwitchMode,
    pub target: TargetView,
    pub interval_secs: u64,
    pub threshold: u32,
    pub auto_reenable: bool,
    pub generation: u64,
}

impl View for HealthParams {
    type V = ParamsView;

    open spec fn view(&self) -> ParamsView {
        ParamsView {
            mode: self.mode,
            target: self.target@,
            interval_secs: self.interval_secs,
            threshold: self.threshold,
            auto_reenable: self.auto_reenable,
            generation: self.generation,
        }
    }
}

impl Clone for HealthParams {
    fn clone(&self) -> (res: Self)
        ensures
            res@ == self@,
    {
        HealthParams {
            mode: self.mode,
            target: self.target.clone(),
            interval_secs: self.interval_secs,
            threshold: self.threshold,
            auto_reenable: self.auto_reenable,
            generation: self.generation,
        }
    }
}

/// What the monitor is told.
#[derive(Debug)]
pub enum TickEvent {
    /// It is time for a round.
    Due,
    /// The probe's round trip in milliseconds, if there was an answer.
    Probed(Result<Option<u32>, CoreError>),
    /// Whether the switch is still in effect.
    Checked(Result<bool, CoreError>),
    /// The switch was made, or not.
    Enabled(Result<SwitchHandle, CoreError>),
    /// The switch was undone, or not.
    Disabled(Result<(), CoreError>),
}

/// What an event means to the monitor.
pub enum TickEventView {
    Due,
    /// Whether the probe was answered.
    Probed(bool),
    /// Whether the switch counts as being in effect.
    Checked(bool),
    /// The new handle, if there is one.
    Enabled(Option<HandleView>),
    Disabled,
}

impl View for TickEvent {
    type V = TickEventView;

    open spec fn view(&self) -> TickEventView {
        match *self {
            TickEvent::Due => TickEventView::Due,
            TickEvent::Probed(r) => TickEventView::Probed(answered(r)),
            TickEvent::Checked(r) => TickEventView::Checked(still_active(r)),
            TickEvent::Enabled(r) => TickEventView::Enabled(
                match r {
                    Ok(h) => Some(h@),
                    Err(e) => None,
                },
            ),
            TickEvent::Disabled(r) => TickEventView::Disabled,
        }
    }
}

/// A probe succeeds when it is answered in time; an error is a failure.
pub open spec fn answered(r: Result<Option<u32>, CoreError>) -> bool {
    r matches Ok(t) && t is Some
}

/// A switch counts as lost only when a check says so; an error says nothing.
pub open spec fn still_active(r: Result<bool, CoreError>) -> bool {
    r matches Ok(b) ==> b
}

/// What the host has to do for the monitor.
#[derive(Debug)]
pub enum MonitorAction {
    /// Send the event to whoever listens.
    Emit(HealthEvent),
    /// Write the state to disk.
    Persist(RuntimeState),
    /// Probe the address.
    Ping { ip: IpAddr, timeout_ms: u32 },
    /// Find out whether the switch is still in effect.
    CheckActive(SwitchHandle),
    /// Make the switch.
    Enable(BypassTarget),
    /// Undo the switch.
    Disable(SwitchHandle),
}

/// An action by its contents.
pub enum MonitorActionView {
    Emit(EventView),
    Persist(RuntimeState),
    Ping { ip: IpAddr, timeout_ms: u32 },
    CheckActive(HandleView),
    Enable(TargetView),
    Disable(HandleView),
}

impl View for MonitorAction {
    type V = MonitorActionView;

    open spec fn view(&self) -> MonitorActionView {
        match *self {
            MonitorAction::Emit(e) => MonitorActionView::Emit(e@),
            MonitorAction::Persist(rs) => MonitorActionView::Persist(rs),
            MonitorAction::Ping { ip, timeout_ms } => MonitorActionView::Ping { ip, timeout_ms },
            MonitorAction::CheckActive(h) => MonitorActionView::CheckActive(h@),
            MonitorAction::Enable(t) => MonitorActionView::Enable(t@),
            MonitorAction::Disable(h) => MonitorActionView::Disable(h@),
        }
    }
}

/// Actions by their contents.
pub open spec fn monitor_actions_view(v: Seq<MonitorAction>) -> Seq<MonitorActionView> {
    v.map_values(|a: MonitorAction| a@)
}

// ---------------------------------------------------------------------------
// What a step comes to
// ---------------------------------------------------------------------------

/// What a step leaves behind.
pub struct StepView {
    pub next: HealthLoop,
    pub ctx: CtxView,
    pub actions: Seq<MonitorActionView>,
}

/// The health that clients see in a state.
pub open spec fn shown(state: HealthState) -> HealthStatus {
    match state {
        HealthState::Idle => HealthStatus::Idle,
        HealthState::Healthy => HealthStatus::Healthy,
        HealthState::Degraded(n) => HealthStatus::Degraded { consecutive_failures: n },
        HealthState::Fallback => HealthStatus::Fallback,
    }
}

/// The event that is sent at a moment.
pub open spec fn event_at(event_type: EventTypeView, now: Timestamp) -> EventView {
    EventView { event_type, reason: None, at: now }
}

/// The round is over: clients see the state, as of now.
pub open spec fn over(
    state: HealthState,
    ctx: CtxView,
    actions: Seq<MonitorActionView>,
    now: Timestamp,
) -> StepView {
    StepView {
        next: HealthLoop { state, phase: TickPhase::Ready },
        ctx: CtxView {
            runtime: RuntimeState { health: shown(state), last_updated: now, ..ctx.runtime },
            ..ctx
        },
        actions,
    }
}

/// The round goes on once the last action has been answered.
pub open spec fn wait(
    state: HealthState,
    phase: TickPhase,
    ctx: CtxView,
    actions: Seq<MonitorActionView>,
) -> StepView {
    StepView { next: HealthLoop { state, phase }, ctx, actions }
}

/// The round ends without leaving a trace.
pub open spec fn dropped(state: HealthState, ctx: CtxView) -> StepView {
    wait(state, TickPhase::Ready, ctx, seq![])
}

/// One more failure.
pub open spec fn next_count(n: u32) -> u32 {
    if n < u32::MAX {
        (n + 1) as u32
    } else {
        n
    }
}

/// Why traffic goes directly again.
pub open spec fn fallback_reason(first: bool, count: u32, threshold: u32) -> Seq<char> {
    if first {
        "阈值=1，首次探测即失败"@
    } else {
        "连续探测失败 "@ + dec(count as nat) + "/"@ + dec(threshold as nat) + " 次"@
    }
}

/// The switch has been undone: it is forgotten, that is written down, and clients are told.
pub open spec fn fallen(
    ctx: CtxView,
    p: ParamsView,
    first: bool,
    count: u32,
    now: Timestamp,
) -> StepView {
    let rs = RuntimeState {
        is_enabled: false,
        current_mode: None,
        health: HealthStatus::Fallback,
        last_updated: now,
    };
    over(
        HealthState::Fallback,
        CtxView { handle: None, runtime: rs, ..ctx },
        seq![
            MonitorActionView::Persist(rs),
            MonitorActionView::Emit(
                event_at(
                    EventTypeView::AutoFallbackTriggered {
                        reason: fallback_reason(first, count, p.threshold),
                    },
                    now,
                ),
            ),
        ],
        now,
    )
}

/// So many probes in a row have failed.
pub open spec fn failed(
    ctx: CtxView,
    p: ParamsView,
    first: bool,
    count: u32,
    now: Timestamp,
) -> StepView {
    let told = MonitorActionView::Emit(
        event_at(EventTypeView::ProbeFailed { consecutive_count: count }, now),
    );
    if count < p.threshold {
        over(HealthState::Degraded(count), ctx, seq![told], now)
    } else {
        match ctx.handle {
            Some(h) => wait(
                HealthState::Degraded(count),
                TickPhase::FallingBack { first, count },
                CtxView { runtime: RuntimeState { last_updated: now, ..ctx.runtime }, ..ctx },
                seq![told, MonitorActionView::Disable(h)],
            ),
            None => {
                let f = fallen(ctx, p, first, count, now);
                StepView { actions: seq![told] + f.actions, ..f }
            },
        }
    }
}

/// A probe has failed.
pub open spec fn after_failure(
    state: HealthState,
    ctx: CtxView,
    p: ParamsView,
    now: Timestamp,
) -> StepView {
    match state {
        HealthState::Degraded(n) => failed(ctx, p, false, next_count(n), now),
        HealthState::Healthy => failed(ctx, p, true, 1, now),
        _ => over(state, ctx, seq![], now),
    }
}

/// The event of a recovery.
pub open spec fn recovered_at(now: Timestamp) -> MonitorActionView {
    MonitorActionView::Emit(event_at(EventTypeView::ProbeRecovered, now))
}

/// A probe was answered.
pub open spec fn after_success(
    state: HealthState,
    ctx: CtxView,
    p: ParamsView,
    now: Timestamp,
) -> StepView {
    match state {
        HealthState::Healthy => match ctx.handle {
            Some(h) => wait(
                state,
                TickPhase::Checking,
                ctx,
                seq![MonitorActionView::CheckActive(h)],
            ),
            None => wait(
                state,
                TickPhase::Rebuilding,
                ctx,
                seq![MonitorActionView::Enable(p.target)],
            ),
        },
        HealthState::Degraded(n) => over(HealthState::Healthy, ctx, seq![recovered_at(now)], now),
        HealthState::Fallback => if p.auto_reenable {
            wait(state, TickPhase::Reenabling, ctx, seq![MonitorActionView::Enable(p.target)])
        } else {
            over(state, ctx, seq![recovered_at(now)], now)
        },
        HealthState::Idle => over(state, ctx, seq![], now),
    }
}

/// The context once the switch has been made again.
pub open spec fn reenabled(ctx: CtxView, p: ParamsView, h: HandleView, now: Timestamp) -> CtxView {
    CtxView {
        handle: Some(h),
        runtime: RuntimeState {
            is_enabled: true,
            current_mode: Some(p.mode),
            health: HealthStatus::Healthy,
            last_updated: now,
        },
        ..ctx
    }
}

/// The host has tried to make the switch again.
pub open spec fn after_enable(
    l: HealthLoop,
    ctx: CtxView,
    p: ParamsView,
    h: Option<HandleView>,
    now: Timestamp,
) -> StepView {
    match h {
        None => over(l.state, ctx, seq![], now),
        Some(h) => {
            let c = reenabled(ctx, p, h, now);
            if l.phase == TickPhase::Reenabling {
                over(
                    HealthState::Healthy,
                    c,
                    seq![MonitorActionView::Persist(c.runtime), recovered_at(now)],
                    now,
                )
            } else {
                over(l.state, c, seq![MonitorActionView::Persist(c.runtime)], now)
            }
        },
    }
}

/// An event has reached a monitor that has been replaced. A switch that was made
/// meanwhile is undone, unless another one is in effect.
pub open spec fn replaced(l: HealthLoop, ctx: CtxView, ev: TickEventView) -> StepView {
    match ev {
        TickEventView::Enabled(Some(h)) => if ctx.handle is None {
            wait(l.state, TickPhase::Undoing, ctx, seq![MonitorActionView::Disable(h)])
        } else {
            dropped(l.state, ctx)
        },
        _ => dropped(l.state, ctx),
    }
}

/// Whether the event is the one that the monitor waits for.
pub open spec fn awaited(phase: TickPhase, ev: TickEventView) -> bool {
    match phase {
        TickPhase::Ready => ev is Due,
        TickPhase::Probing => ev is Probed,
        TickPhase::Checking => ev is Checked,
        TickPhase::Rebuilding => ev is Enabled,
        TickPhase::Reenabling => ev is Enabled,
        TickPhase::FallingBack { first, count } => ev is Disabled,
        TickPhase::Undoing => ev is Disabled,
    }
}

/// What one step of a monitor comes to.
pub open spec fn stepped(
    l: HealthLoop,
    ctx: CtxView,
    p: ParamsView,
    ev: TickEventView,
    now: Timestamp,
) -> StepView {
    if !awaited(l.phase, ev) {
        wait(l.state, l.phase, ctx, seq![])
    } else if ctx.generation != p.generation {
        replaced(l, ctx, ev)
    } else {
        match (l.phase, ev) {
            (TickPhase::Ready, _) => if l.state == HealthState::Idle {
                dropped(l.state, ctx)
            } else {
                wait(
                    l.state,
                    TickPhase::Probing,
                    ctx,
                    seq![
                        MonitorActionView::Ping {
                            ip: p.target.bypass_ip,
                            timeout_ms: PING_TIMEOUT_MS,
                        },
                    ],
                )
            },
            (_, TickEventView::Probed(ok)) => if ok {
                after_success(l.state, ctx, p, now)
            } else {
                after_failure(l.state, ctx, p, now)
            },
            (_, TickEventView::Checked(active)) => if active {
                over(l.state, ctx, seq![], now)
            } else {
                wait(
                    l.state,
                    TickPhase::Rebuilding,
                    ctx,
                    seq![MonitorActionView::Enable(p.target)],
                )
            },
            (_, TickEventView::Enabled(h)) => after_enable(l, ctx, p, h, now),
            (TickPhase::FallingBack { first, count }, _) => fallen(ctx, p, first, count, now),
            _ => dropped(l.state, ctx),
        }
    }
}

// ---------------------------------------------------------------------------
// The monitor
// ---------------------------------------------------------------------------

fn no_actions() -> (out: Vec<MonitorAction>)
    ensures
        monitor_actions_view(out@) == Seq::<MonitorActionView>::empty(),
{
    let out: Vec<MonitorAction> = Vec::new();
    assert(monitor_actions_view(out@) =~= Seq::<MonitorActionView>::empty());
    out
}

fn one_action(a: MonitorAction) -> (out: Vec<MonitorAction>)
    ensures
        monitor_actions_view(out@) == seq![a@],
{
    let mut out: Vec<MonitorAction> = Vec::new();
    out.push(a);
    assert(monitor_actions_view(out@) =~= seq![a@]);
    out
}

fn two_actions(a: MonitorAction, b: MonitorAction) -> (out: Vec<MonitorAction>)
    ensures
        monitor_actions_view(out@) == seq![a@, b@],
{
    let mut out: Vec<MonitorAction> = Vec::new();
    out.push(a);
    out.push(b);
    assert(monitor_actions_view(out@) =~= seq![a@, b@]);
    out
}

/// Whether a probe succeeded.
fn try_ping(probe: &Result<Option<u32>, CoreError>) -> (ok: bool)
    ensures
        ok == answered(*probe),
{
    match probe {
        Ok(latency) => latency.is_some(),
        Err(_) => false,
    }
}

/// Makes the event, and marks the runtime state as changed now.
fn emit(ctx: &mut HealthCtx, event_type: HealthEventType, now: Timestamp) -> (a: MonitorAction)
    ensures
        a@ == MonitorActionView::Emit(event_at(event_type@, now)),
        final(ctx)@ == (CtxView {
            runtime: RuntimeState { last_updated: now, ..old(ctx)@.runtime },
            ..old(ctx)@
        }),
{
    ctx.runtime.last_updated = now;
    MonitorAction::Emit(HealthEvent { event_type, reason: None, at: now })
}

/// Lets clients see the state, as of now.
fn update_runtime_health(ctx: &mut HealthCtx, state: HealthState, now: Timestamp)
    ensures
        final(ctx)@ == over(state, old(ctx)@, seq![], now).ctx,
{
    ctx.runtime.health =
    match state {
        HealthState::Idle => HealthStatus::Idle,
        HealthState::Healthy => HealthStatus::Healthy,
        HealthState::Degraded(n) => HealthStatus::Degraded { consecutive_failures: n },
        HealthState::Fallback => HealthStatus::Fallback,
    };
    ctx.runtime.last_updated = now;
}

fn reason_text(first: bool, count: u32, threshold: u32) -> (out: String)
    ensures
        out@ == fallback_reason(first, count, threshold),
{
    if first {
        "阈值=1，首次探测即失败".to_owned()
    } else {
        let n = dec_text(count as u64);
        let t = dec_text(threshold as u64);
        concat5("连续探测失败 ", n.as_str(), "/", t.as_str(), " 次")
    }
}

impl HealthLoop {
    /// A monitor for a bypass that has just been enabled.
    pub fn start() -> (l: HealthLoop)
        ensures
            l == (HealthLoop { state: HealthState::Healthy, phase: TickPhase::Ready }),
    {
        HealthLoop { state: HealthState::Healthy, phase: TickPhase::Ready }
    }

    /// Whether what the monitor waits for suits what it thinks.
    pub open spec fn wf(self) -> bool {
        match self.phase {
            TickPhase::Ready => true,
            TickPhase::Undoing => true,
            TickPhase::Probing => self.state !is Idle,
            TickPhase::Checking => self.state is Healthy,
            TickPhase::Rebuilding => self.state is Healthy,
            TickPhase::Reenabling => self.state is Fallback,
            TickPhase::FallingBack { first, count } => self.state == HealthState::Degraded(count),
        }
    }

    /// Gives up: the switch is forgotten, that is written down, and clients are told.
    fn fallback(
        &mut self,
        ctx: &mut HealthCtx,
        p: &HealthParams,
        first: bool,
        count: u32,
        now: Timestamp,
    ) -> (out: Vec<MonitorAction>)
        ensures
            ({
                let s = fallen(old(ctx)@, p@, first, count, now);
                &&& *final(self) == s.next
                &&& final(ctx)@ == s.ctx
                &&& monitor_actions_view(out@) == s.actions
            }),
    {
        ctx.handle = None;
        ctx.runtime.is_enabled = false;
        ctx.runtime.current_mode = None;
        ctx.runtime.health = HealthStatus::Fallback;
        ctx.runtime.last_updated = now;
        let written = MonitorAction::Persist(ctx.runtime);
        self.state = HealthState::Fallback;
        self.phase = TickPhase::Ready;
        let reason = reason_text(first, count, p.threshold);
        let told = emit(ctx, HealthEventType::AutoFallbackTriggered { reason }, now);
        update_runtime_health(ctx, self.state, now);
        two_actions(written, told)
    }

    /// Counts a failure and gives up at the threshold.
    fn count_failure(
        &mut self,
        ctx: &mut HealthCtx,
        p: &HealthParams,
        first: bool,
        count: u32,
        now: Timestamp,
    ) -> (out: Vec<MonitorAction>)
        ensures
            ({
                let s = failed(old(ctx)@, p@, first, count, now);
                &&& *final(self) == s.next
                &&& final(ctx)@ == s.ctx
                &&& monitor_actions_view(out@) == s.actions
            }),
    {
        let ghost before = ctx@;
        self.state = HealthState::Degraded(count);
        self.phase = TickPhase::Ready;
        let told = emit(ctx, HealthEventType::ProbeFailed { consecutive_count: count }, now);
        if count < p.threshold {
            update_runtime_health(ctx, self.state, now);
            return one_action(told);
        }
        match &ctx.handle {
            Some(h) => {
                self.phase = TickPhase::FallingBack { first, count };
                two_actions(told, MonitorAction::Disable(h.clone()))
            },
            None => {
                let mut rest = self.fallback(ctx, p, first, count, now);
                let ghost tail = rest@;
                rest.insert(0, told);
                proof {
                    let f = fallen(before, p@, first, count, now);
                    assert(monitor_actions_view(tail) == f.actions);
                    assert forall|k: int| 0 <= k < rest@.len() implies #[trigger] monitor_actions_view(
                        rest@,
                    )[k] == (seq![told@] + f.actions)[k] by {
                        if k > 0 {
                            assert(rest@[k] == tail[k - 1]);
                            assert(monitor_actions_view(tail)[k - 1] == tail[k - 1]@);
                        }
                    }
                    assert(monitor_actions_view(rest@) =~= seq![told@] + f.actions);
                }
                rest
            },
        }
    }

    /// A probe has failed: counts it and gives up at the threshold.
    fn handle_failure(&mut self, ctx: &mut HealthCtx, p: &HealthParams, now: Timestamp) -> (out: Vec<
        MonitorAction,
    >)
        ensures
            ({
                let s = after_failure(old(self).state, old(ctx)@, p@, now);
                &&& *final(self) == s.next
                &&& final(ctx)@ == s.ctx
                &&& monitor_actions_view(out@) == s.actions
            }),
    {
        match self.state {
            HealthState::Degraded(n) => {
                let count: u32 = if n < u32::MAX {
                    n + 1
                } else {
                    n
                };
                self.count_failure(ctx, p, false, count, now)
            },
            HealthState::Healthy => self.count_failure(ctx, p, true, 1, now),
            _ => {
                self.phase = TickPhase::Ready;
                update_runtime_health(ctx, self.state, now);
                no_actions()
            },
        }
    }

    /// A probe was answered: the switch is checked, or made again after a fallback.
    fn handle_success(&mut self, ctx: &mut HealthCtx, p: &HealthParams, now: Timestamp) -> (out: Vec<
        MonitorAction,
    >)
        ensures
            ({
                let s = after_success(old(self).state, old(ctx)@, p@, now);
                &&& *final(self) == s.next
                &&& final(ctx)@ == s.ctx
                &&& monitor_actions_view(out@) == s.actions
            }),
    {
        match self.state {
            HealthState::Healthy => match &ctx.handle {
                Some(h) => {
                    self.phase = TickPhase::Checking;
                    one_action(MonitorAction::CheckActive(h.clone()))
                },
                None => {
                    self.phase = TickPhase::Rebuilding;
                    one_action(MonitorAction::Enable(p.target.clone()))
                },
            },
            HealthState::Degraded(_) => {
                self.state = HealthState::Healthy;
                self.phase = TickPhase::Ready;
                let told = emit(ctx, HealthEventType::ProbeRecovered, now);
                update_runtime_health(ctx, self.state, now);
                one_action(told)
            },
            HealthState::Fallback => {
                if p.auto_reenable {
                    self.phase = TickPhase::Reenabling;
                    one_action(MonitorAction::Enable(p.target.clone()))
                } else {
                    self.phase = TickPhase::Ready;
                    let told = emit(ctx, HealthEventType::ProbeRecovered, now);
                    update_runtime_health(ctx, self.state, now);
                    one_action(told)
                }
            },
            HealthState::Idle => {
                self.phase = TickPhase::Ready;
                update_runtime_health(ctx, self.state, now);
                no_actions()
            },
        }
    }

    /// The switch has been made again, or not.
    fn finish_enable(
        &mut self,
        ctx: &mut HealthCtx,
        p: &HealthParams,
        result: Result<SwitchHandle, CoreError>,
        now: Timestamp,
    ) -> (out: Vec<MonitorAction>)
        ensures
            ({
                let s = after_enable(
                    *old(self),
                    old(ctx)@,
                    p@,
                    TickEvent::Enabled(result)@->Enabled_0,
                    now,
                );
                &&& *final(self) == s.next
                &&& final(ctx)@ == s.ctx
                &&& monitor_actions_view(out@) == s.actions
            }),
    {
        let was = self.phase;
        self.phase = TickPhase::Ready;
        match result {
            Err(_) => {
                update_runtime_health(ctx, self.state, now);
                no_actions()
            },
            Ok(h) => {
                ctx.handle = Some(h);
                ctx.runtime.is_enabled = true;
                ctx.runtime.current_mode = Some(p.mode);
                ctx.runtime.health = HealthStatus::Healthy;
                ctx.runtime.last_updated = now;
                let written = MonitorAction::Persist(ctx.runtime);
                if was == TickPhase::Reenabling {
                    self.state = HealthState::Healthy;
                    let told = emit(ctx, HealthEventType::ProbeRecovered, now);
                    update_runtime_health(ctx, self.state, now);
                    two_actions(written, told)
                } else {
                    update_runtime_health(ctx, self.state, now);
                    one_action(written)
                }
            },
        }
    }

    /// An event for a monitor that has been replaced.
    fn stale(&mut self, ctx: &HealthCtx, ev: TickEvent) -> (out: Vec<MonitorAction>)
        ensures
            ({
                let s = replaced(*old(self), ctx@, ev@);
                &&& *final(self) == s.next
                &&& monitor_actions_view(out@) == s.actions
            }),
    {
        self.phase = TickPhase::Ready;
        match ev {
            TickEvent::Enabled(Ok(h)) => {
                if ctx.handle.is_none() {
                    self.phase = TickPhase::Undoing;
                    one_action(MonitorAction::Disable(h))
                } else {
                    no_actions()
                }
            },
            _ => no_actions(),
        }
    }

    /// One step of the monitor: takes an event in, says what the host has to do.
    pub fn step(
        &mut self,
        ctx: &mut HealthCtx,
        p: &HealthParams,
        ev: TickEvent,
        now: Timestamp,
    ) -> (out: Vec<MonitorAction>)
        ensures
            ({
                let s = stepped(*old(self), old(ctx)@, p@, ev@, now);
                &&& *final(self) == s.next
                &&& final(ctx)@ == s.ctx
                &&& monitor_actions_view(out@) == s.actions
            }),
    {
        let current = ctx.generation == p.generation;
        match (self.phase, ev) {
            (TickPhase::Ready, TickEvent::Due) => {
                if !current || self.state == HealthState::Idle {
                    return no_actions();
                }
                self.phase = TickPhase::Probing;
                one_action(
                    MonitorAction::Ping { ip: p.target.bypass_ip, timeout_ms: PING_TIMEOUT_MS },
                )
            },
            (TickPhase::Probing, TickEvent::Probed(probe)) => {
                if !current {
                    return self.stale(ctx, TickEvent::Probed(probe));
                }
                if try_ping(&probe) {
                    self.handle_success(ctx, p, now)
                } else {
                    self.handle_failure(ctx, p, now)
                }
            },
            (TickPhase::Checking, TickEvent::Checked(check)) => {
                if !current {
                    return self.stale(ctx, TickEvent::Checked(check));
                }
                let active = match check {
                    Ok(b) => b,
                    Err(_) => true,
                };
                if active {
                    self.phase = TickPhase::Ready;
                    update_runtime_health(ctx, self.state, now);
                    no_actions()
                } else {
                    self.phase = TickPhase::Rebuilding;
                    one_action(MonitorAction::Enable(p.target.clone()))
                }
            },
            (TickPhase::Rebuilding, TickEvent::Enabled(result)) => {
                if !current {
                    return self.stale(ctx, TickEvent::Enabled(result));
                }
                self.finish_enable(ctx, p, result, now)
            },
            (TickPhase::Reenabling, TickEvent::Enabled(result)) => {
                if !current {
                    return self.stale(ctx, TickEvent::Enabled(result));
                }
                self.finish_enable(ctx, p, result, now)
            },
            (TickPhase::FallingBack { first, count }, TickEvent::Disabled(result)) => {
                if !current {
                    return self.stale(ctx, TickEvent::Disabled(result));
                }
                self.fallback(ctx, p, first, count, now)
            },
            (TickPhase::Undoing, TickEvent::Disabled(_)) => {
                self.phase = TickPhase::Ready;
                no_actions()
            },
            _ => no_actions(),
        }
    }
}

} // verus!
