//! What watching the bypass comes to: what is probed, counted, undone, made again, written
//! and told, and what clients see.

use vstd::prelude::*;

use crate::addr::IpAddr;
use crate::error::CoreError;
use crate::health_laws::{failing_rounds, failures_below_threshold_keep_the_switch, run};
use crate::health_monitor::{
    monitor_actions_view, stepped, CtxView, HealthCtx, HealthLoop, HealthParams, HealthState,
    MonitorAction, MonitorActionView, ParamsView, StepView, TickEvent, TickEventView, TickPhase,
};
use crate::number::dec;
use crate::protocol::{
    EventTypeView, HandleView, HealthStatus, RuntimeState, SwitchHandle, SwitchMode, Timestamp,
};

verus! {

/// Whether the action tells clients that something has happened at the moment.
pub open spec fn tells(a: MonitorActionView, what: EventTypeView, at: Timestamp) -> bool {
    a matches MonitorActionView::Emit(e) && e.event_type == what && e.reason is None && e.at == at
}

/// Whether the action probes the router, for three seconds at most.
pub open spec fn probes(a: MonitorActionView, ip: IpAddr) -> bool {
    a matches MonitorActionView::Ping { ip: x, timeout_ms } && x == ip && timeout_ms == 3000
}

/// Whether the context is the one before, but for the health that clients see and the
/// moment of it.
pub open spec fn sees(after: CtxView, before: CtxView, health: HealthStatus, at: Timestamp) -> bool {
    &&& after.handle == before.handle
    &&& after.generation == before.generation
    &&& after.runtime.is_enabled == before.runtime.is_enabled
    &&& after.runtime.current_mode == before.runtime.current_mode
    &&& after.runtime.health == health
    &&& after.runtime.last_updated == at
}

/// Whether the context says that the switch is in effect in the mode.
pub open spec fn holds_switch(
    after: CtxView,
    before: CtxView,
    h: HandleView,
    mode: SwitchMode,
    at: Timestamp,
) -> bool {
    &&& after.handle == Some(h)
    &&& after.generation == before.generation
    &&& after.runtime.is_enabled
    &&& after.runtime.current_mode == Some(mode)
    &&& after.runtime.health == HealthStatus::Healthy
    &&& after.runtime.last_updated == at
}

/// Whether the context says that the bypass was given up.
pub open spec fn gave_up(after: CtxView, before: CtxView, at: Timestamp) -> bool {
    &&& after.handle is None
    &&& after.generation == before.generation
    &&& !after.runtime.is_enabled
    &&& after.runtime.current_mode is None
    &&& after.runtime.health == HealthStatus::Fallback
    &&& after.runtime.last_updated == at
}

/// What is told when the bypass is given up after so many failures of so many allowed.
pub open spec fn why_given_up(failures: nat, allowed: nat) -> Seq<char> {
    if failures == 1 {
        "阈值=1，首次探测即失败"@
    } else {
        "连续探测失败 "@ + dec(failures) + "/"@ + dec(allowed) + " 次"@
    }
}

/// One failure more, as far as can be counted.
pub open spec fn one_more(n: u32) -> u32 {
    if n == 0xffff_ffff {
        n
    } else {
        (n + 1) as u32
    }
}

/// A monitor that has just been started.
pub open spec fn fresh() -> HealthLoop {
    HealthLoop { state: HealthState::Healthy, phase: TickPhase::Ready }
}

/// A monitor at rest in a state.
pub open spec fn at_rest(state: HealthState) -> HealthLoop {
    HealthLoop { state, phase: TickPhase::Ready }
}

// ---------------------------------------------------------------------------
// Single steps
// ---------------------------------------------------------------------------

/// Each round begins with one probe of the router, unless the monitor is idle; nothing else
/// is done or shown before its answer.
pub proof fn round_begins_with_a_probe(
    state: HealthState,
    ctx: CtxView,
    p: ParamsView,
    now: Timestamp,
)
    requires
        ctx.generation == p.generation,
    ensures
        ({
            let s = stepped(at_rest(state), ctx, p, TickEventView::Due, now);
            &&& s.ctx == ctx
            &&& s.next.state == state
            &&& !(state is Idle) ==> s.next.phase is Probing && s.actions.len() == 1 && probes(
                s.actions[0],
                p.target.bypass_ip,
            )
            &&& state is Idle ==> s.next.phase is Ready && s.actions.len() == 0
        }),
{
}

/// A first failure short of the threshold is counted as one and told, and one more failure
/// as one more. Clients see that very count.
pub proof fn failure_is_counted_and_shown(
    n: u32,
    ctx: CtxView,
    p: ParamsView,
    now: Timestamp,
)
    requires
        ctx.generation == p.generation,
        n + 1 < p.threshold,
    ensures
        ({
            let l = HealthLoop {
                state: if n == 0 {
                    HealthState::Healthy
                } else {
                    HealthState::Degraded(n)
                },
                phase: TickPhase::Probing,
            };
            let s = stepped(l, ctx, p, TickEventView::Probed(false), now);
            &&& s.next == at_rest(HealthState::Degraded((n + 1) as u32))
            &&& sees(
                s.ctx,
                ctx,
                (HealthStatus::Degraded { consecutive_failures: (n + 1) as u32 }),
                now,
            )
            &&& s.actions.len() == 1
            &&& tells(
                s.actions[0],
                (EventTypeView::ProbeFailed { consecutive_count: (n + 1) as u32 }),
                now,
            )
        }),
{
}

/// A failure that reaches the threshold, or goes beyond it, is told, and the switch in effect is undone; until
/// that is answered nothing else changes. Without a switch the bypass is given up at once.
pub proof fn failure_at_the_threshold_gives_up(
    n: u32,
    ctx: CtxView,
    p: ParamsView,
    now: Timestamp,
)
    requires
        ctx.generation == p.generation,
        n + 1 >= p.threshold,
    ensures
        ({
            let l = HealthLoop {
                state: if n == 0 {
                    HealthState::Healthy
                } else {
                    HealthState::Degraded(n)
                },
                phase: TickPhase::Probing,
            };
            let s = stepped(l, ctx, p, TickEventView::Probed(false), now);
            &&& s.actions.len() > 0
            &&& tells(
                s.actions[0],
                (EventTypeView::ProbeFailed { consecutive_count: one_more(n) }),
                now,
            )
            &&& ctx.handle matches Some(h) ==> {
                &&& s.actions.len() == 2
                &&& s.actions[1] == MonitorActionView::Disable(h)
                &&& s.next.phase is FallingBack
                &&& sees(s.ctx, ctx, ctx.runtime.health, now)
            }
            &&& ctx.handle is None ==> {
                &&& s.next == at_rest(HealthState::Fallback)
                &&& gave_up(s.ctx, ctx, now)
                &&& s.actions.len() == 3
                &&& s.actions[1] == MonitorActionView::Persist(s.ctx.runtime)
                &&& tells(
                    s.actions[2],
                    (EventTypeView::AutoFallbackTriggered {
                        reason: why_given_up(one_more(n) as nat, p.threshold as nat),
                    }),
                    now,
                )
            }
        }),
{
}

/// Once the switch has been undone, or that has failed, the bypass is given up: that is
/// written and told with its reason, and clients see it.
pub proof fn undone_switch_is_given_up(
    n: u32,
    ctx: CtxView,
    p: ParamsView,
    t1: Timestamp,
    t2: Timestamp,
)
    requires
        ctx.generation == p.generation,
        ctx.handle is Some,
        n + 1 >= p.threshold,
    ensures
        ({
            let l = HealthLoop {
                state: if n == 0 {
                    HealthState::Healthy
                } else {
                    HealthState::Degraded(n)
                },
                phase: TickPhase::Probing,
            };
            let s = stepped(l, ctx, p, TickEventView::Probed(false), t1);
            let t = stepped(s.next, s.ctx, p, TickEventView::Disabled, t2);
            &&& t.next == at_rest(HealthState::Fallback)
            &&& gave_up(t.ctx, ctx, t2)
            &&& t.actions.len() == 2
            &&& t.actions[0] == MonitorActionView::Persist(t.ctx.runtime)
            &&& tells(
                t.actions[1],
                (EventTypeView::AutoFallbackTriggered {
                    reason: why_given_up(one_more(n) as nat, p.threshold as nat),
                }),
                t2,
            )
        }),
{
}

/// While the bypass is healthy, an answered probe leads to the question whether the switch
/// is still in effect; where there is none, it is made. Nothing is told or shown yet.
pub proof fn answered_probe_checks_the_switch(ctx: CtxView, p: ParamsView, now: Timestamp)
    requires
        ctx.generation == p.generation,
    ensures
        ({
            let l = HealthLoop { state: HealthState::Healthy, phase: TickPhase::Probing };
            let s = stepped(l, ctx, p, TickEventView::Probed(true), now);
            &&& s.ctx == ctx
            &&& s.next.state is Healthy
            &&& s.actions.len() == 1
            &&& ctx.handle matches Some(h) ==> s.next.phase is Checking && s.actions[0]
                == MonitorActionView::CheckActive(h)
            &&& ctx.handle is None ==> s.next.phase is Rebuilding && s.actions[0]
                == MonitorActionView::Enable(p.target)
        }),
{
}

/// A switch that is still in effect is left alone, and clients see that all is well. One
/// that is lost is made again for the same target.
pub proof fn check_leads_to_rest_or_rebuilding(ctx: CtxView, p: ParamsView, now: Timestamp)
    requires
        ctx.generation == p.generation,
    ensures
        ({
            let l = HealthLoop { state: HealthState::Healthy, phase: TickPhase::Checking };
            let s = stepped(l, ctx, p, TickEventView::Checked(true), now);
            let t = stepped(l, ctx, p, TickEventView::Checked(false), now);
            &&& s.next == fresh()
            &&& s.actions.len() == 0
            &&& sees(s.ctx, ctx, HealthStatus::Healthy, now)
            &&& t.next.state is Healthy
            &&& t.next.phase is Rebuilding
            &&& t.ctx == ctx
            &&& t.actions == seq![MonitorActionView::Enable(p.target)]
        }),
{
}

/// A switch that was made again is kept, recorded and shown; where it cannot be made, the
/// monitor tries again in the next round, and nothing is forgotten.
pub proof fn rebuilding_keeps_the_new_switch(
    ctx: CtxView,
    p: ParamsView,
    h: HandleView,
    now: Timestamp,
)
    requires
        ctx.generation == p.generation,
    ensures
        ({
            let l = HealthLoop { state: HealthState::Healthy, phase: TickPhase::Rebuilding };
            let s = stepped(l, ctx, p, TickEventView::Enabled(Some(h)), now);
            let t = stepped(l, ctx, p, TickEventView::Enabled(None), now);
            &&& s.next == fresh()
            &&& holds_switch(s.ctx, ctx, h, p.mode, now)
            &&& s.actions == seq![MonitorActionView::Persist(s.ctx.runtime)]
            &&& t.next == fresh()
            &&& sees(t.ctx, ctx, HealthStatus::Healthy, now)
            &&& t.actions.len() == 0
        }),
{
}

/// An answered probe ends a row of failures: it is told, and clients see that all is well.
pub proof fn answered_probe_ends_the_row(n: u32, ctx: CtxView, p: ParamsView, now: Timestamp)
    requires
        ctx.generation == p.generation,
    ensures
        ({
            let l = HealthLoop { state: HealthState::Degraded(n), phase: TickPhase::Probing };
            let s = stepped(l, ctx, p, TickEventView::Probed(true), now);
            &&& s.next == fresh()
            &&& sees(s.ctx, ctx, HealthStatus::Healthy, now)
            &&& s.actions.len() == 1
            &&& tells(s.actions[0], EventTypeView::ProbeRecovered, now)
        }),
{
}

/// After the bypass was given up, an answered probe makes the switch again if that is wanted,
/// and is only told if it is not. A failed probe changes nothing.
pub proof fn given_up_bypass_comes_back_if_wanted(ctx: CtxView, p: ParamsView, now: Timestamp)
    requires
        ctx.generation == p.generation,
    ensures
        ({
            let l = HealthLoop { state: HealthState::Fallback, phase: TickPhase::Probing };
            let s = stepped(l, ctx, p, TickEventView::Probed(true), now);
            let t = stepped(l, ctx, p, TickEventView::Probed(false), now);
            &&& p.auto_reenable ==> {
                &&& s.ctx == ctx
                &&& s.next.state is Fallback
                &&& s.next.phase is Reenabling
                &&& s.actions == seq![MonitorActionView::Enable(p.target)]
            }
            &&& !p.auto_reenable ==> {
                &&& s.next == at_rest(HealthState::Fallback)
                &&& sees(s.ctx, ctx, HealthStatus::Fallback, now)
                &&& s.actions.len() == 1
                &&& tells(s.actions[0], EventTypeView::ProbeRecovered, now)
            }
            &&& t.next == at_rest(HealthState::Fallback)
            &&& sees(t.ctx, ctx, HealthStatus::Fallback, now)
            &&& t.actions.len() == 0
        }),
{
}

/// A switch that was made after a fallback is kept, recorded, told and shown; where it cannot
/// be made, the bypass stays given up.
pub proof fn coming_back_keeps_the_new_switch(
    ctx: CtxView,
    p: ParamsView,
    h: HandleView,
    now: Timestamp,
)
    requires
        ctx.generation == p.generation,
    ensures
        ({
            let l = HealthLoop { state: HealthState::Fallback, phase: TickPhase::Reenabling };
            let s = stepped(l, ctx, p, TickEventView::Enabled(Some(h)), now);
            let t = stepped(l, ctx, p, TickEventView::Enabled(None), now);
            &&& s.next == fresh()
            &&& holds_switch(s.ctx, ctx, h, p.mode, now)
            &&& s.actions.len() == 2
            &&& s.actions[0] == MonitorActionView::Persist(s.ctx.runtime)
            &&& tells(s.actions[1], EventTypeView::ProbeRecovered, now)
            &&& t.next == at_rest(HealthState::Fallback)
            &&& sees(t.ctx, ctx, HealthStatus::Fallback, now)
            &&& t.actions.len() == 0
        }),
{
}

/// An idle monitor takes probes for nothing but the moment.
pub proof fn idle_monitor_stays_idle(ctx: CtxView, p: ParamsView, ok: bool, now: Timestamp)
    requires
        ctx.generation == p.generation,
    ensures
        ({
            let l = HealthLoop { state: HealthState::Idle, phase: TickPhase::Probing };
            let s = stepped(l, ctx, p, TickEventView::Probed(ok), now);
            &&& s.next == at_rest(HealthState::Idle)
            &&& sees(s.ctx, ctx, HealthStatus::Idle, now)
            &&& s.actions.len() == 0
        }),
{
}

/// A monitor that was replaced while it made a switch undoes that switch, unless another one
/// is in effect by then; it does nothing else, and afterwards it rests.
pub proof fn replaced_monitor_undoes_its_own_switch(
    l: HealthLoop,
    ctx: CtxView,
    p: ParamsView,
    h: HandleView,
    t1: Timestamp,
    t2: Timestamp,
)
    requires
        ctx.generation != p.generation,
        l.phase is Rebuilding || l.phase is Reenabling,
    ensures
        ({
            let s = stepped(l, ctx, p, TickEventView::Enabled(Some(h)), t1);
            let t = stepped(s.next, s.ctx, p, TickEventView::Disabled, t2);
            &&& s.ctx == ctx
            &&& ctx.handle is None ==> {
                &&& s.actions == seq![MonitorActionView::Disable(h)]
                &&& t.ctx == ctx
                &&& t.actions.len() == 0
                &&& t.next.phase is Ready
            }
            &&& ctx.handle is Some ==> s.actions.len() == 0 && s.next.phase is Ready
        }),
{
}

/// An event that the monitor does not wait for changes nothing.
pub proof fn unawaited_events_are_ignored(
    l: HealthLoop,
    ctx: CtxView,
    p: ParamsView,
    ev: TickEventView,
    now: Timestamp,
)
    requires
        match ev {
            TickEventView::Due => !(l.phase is Ready),
            TickEventView::Probed(_) => !(l.phase is Probing),
            TickEventView::Checked(_) => !(l.phase is Checking),
            TickEventView::Enabled(_) => !(l.phase is Rebuilding || l.phase is Reenabling),
            TickEventView::Disabled => !(l.phase is FallingBack || l.phase is Undoing),
        },
    ensures
        stepped(l, ctx, p, ev, now) == (StepView { next: l, ctx, actions: seq![] }),
{
}

/// A probe counts as answered exactly if there was a reply in time; a switch counts as lost
/// exactly if the check says so.
pub proof fn answers_mean_what_they_say(ms: u32, e: CoreError, h: SwitchHandle)
    ensures
        TickEvent::Probed(Ok(Some(ms)))@ == TickEventView::Probed(true),
        TickEvent::Probed(Ok(None))@ == TickEventView::Probed(false),
        TickEvent::Probed(Err(e))@ == TickEventView::Probed(false),
        TickEvent::Checked(Ok(true))@ == TickEventView::Checked(true),
        TickEvent::Checked(Ok(false))@ == TickEventView::Checked(false),
        TickEvent::Checked(Err(e))@ == TickEventView::Checked(true),
        TickEvent::Enabled(Ok(h))@ == TickEventView::Enabled(Some(h@)),
        TickEvent::Enabled(Err(e))@ == TickEventView::Enabled(None),
        TickEvent::Disabled(Ok(()))@ == TickEventView::Disabled,
        TickEvent::Disabled(Err(e))@ == TickEventView::Disabled,
{
}

/// What the host is asked for, and what the monitor goes by, is what was meant.
pub proof fn host_does_what_the_monitor_decided(
    c: HealthCtx,
    p: HealthParams,
    a: MonitorAction,
    v: Seq<MonitorAction>,
)
    ensures
        c.handle matches Some(h) ==> c@.handle == Some(h@),
        c.handle is None ==> c@.handle is None,
        c@.runtime == c.runtime,
        c@.generation == c.generation,
        p@.mode == p.mode,
        p@.target == p.target@,
        p@.interval_secs == p.interval_secs,
        p@.threshold == p.threshold,
        p@.auto_reenable == p.auto_reenable,
        p@.generation == p.generation,
        a matches MonitorAction::Emit(e) ==> a@ == MonitorActionView::Emit(e@),
        a matches MonitorAction::Persist(rs) ==> a@ == MonitorActionView::Persist(rs),
        a matches MonitorAction::Ping { ip, timeout_ms } ==> a@ == (MonitorActionView::Ping {
            ip,
            timeout_ms,
        }),
        a matches MonitorAction::CheckActive(h) ==> a@ == MonitorActionView::CheckActive(h@),
        a matches MonitorAction::Enable(t) ==> a@ == MonitorActionView::Enable(t@),
        a matches MonitorAction::Disable(h) ==> a@ == MonitorActionView::Disable(h@),
        monitor_actions_view(v).len() == v.len(),
        forall|i: int| 0 <= i < v.len() ==> #[trigger] monitor_actions_view(v)[i] == v[i]@,
        TickEvent::Due@ is Due,
{
}

// ---------------------------------------------------------------------------
// Whole rows of failures
// ---------------------------------------------------------------------------

/// After a row of failures short of the threshold, clients see how many there were, and the
/// switch is as it was. Every round has probed the router once and told its count.
pub proof fn row_of_failures_is_shown(
    ctx: CtxView,
    p: ParamsView,
    events: Seq<(TickEventView, Timestamp)>,
    k: nat,
)
    requires
        ctx.generation == p.generation,
        1 <= k < p.threshold,
        failing_rounds(events, k),
    ensures
        ({
            let s = run(fresh(), ctx, p, events);
            &&& s.next == at_rest(HealthState::Degraded(k as u32))
            &&& sees(
                s.ctx,
                ctx,
                (HealthStatus::Degraded { consecutive_failures: k as u32 }),
                events.last().1,
            )
            &&& s.actions.len() == 2 * k
            &&& forall|j: int|
                0 <= j < k ==> probes(#[trigger] s.actions[2 * j], p.target.bypass_ip)
            &&& forall|j: int|
                0 <= j < k ==> tells(
                    #[trigger] s.actions[2 * j + 1],
                    (EventTypeView::ProbeFailed { consecutive_count: (j + 1) as u32 }),
                    events[2 * j + 1].1,
                )
        }),
    decreases k,
{
    let front = events.take(2 * k - 2);
    let (t1, t2) = (events[2 * k - 2].1, events[2 * k - 1].1);
    assert(events.drop_last().drop_last() =~= front);
    assert(events.drop_last().last() == events[2 * k - 2]);
    assert(events[2 * k - 2].0 == TickEventView::Due);
    assert(events[2 * k - 1].0 == TickEventView::Probed(false));
    assert forall|i: int| 0 <= i < front.len() implies (#[trigger] front[i]).0 == (if i % 2 == 0 {
        TickEventView::Due
    } else {
        TickEventView::Probed(false)
    }) by {
        assert(front[i] == events[i]);
    }
    let before = run(fresh(), ctx, p, front);
    if k > 1 {
        row_of_failures_is_shown(ctx, p, front, (k - 1) as nat);
    } else {
        assert(front =~= Seq::empty());
    }
    reveal_with_fuel(run, 3);
    let a = stepped(before.next, before.ctx, p, TickEventView::Due, t1);
    let b = stepped(a.next, a.ctx, p, TickEventView::Probed(false), t2);
    let s = run(fresh(), ctx, p, events);
    assert(s.actions =~= before.actions + a.actions + b.actions);
    assert forall|j: int| 0 <= j < k implies probes(
        #[trigger] s.actions[2 * j],
        p.target.bypass_ip,
    ) by {
        if j < k - 1 {
            assert(s.actions[2 * j] == before.actions[2 * j]);
        } else {
            assert(s.actions[2 * j] == a.actions[0]);
        }
    }
    assert forall|j: int| 0 <= j < k implies tells(
        #[trigger] s.actions[2 * j + 1],
        (EventTypeView::ProbeFailed { consecutive_count: (j + 1) as u32 }),
        events[2 * j + 1].1,
    ) by {
        if j < k - 1 {
            assert(s.actions[2 * j + 1] == before.actions[2 * j + 1]);
            assert(front[2 * j + 1] == events[2 * j + 1]);
        } else {
            assert(s.actions[2 * j + 1] == b.actions[0]);
        }
    }
}

/// As many failures in a row as the threshold allows, and the bypass is given up: the switch
/// in effect is undone, that is written and told, and clients see it.
pub proof fn row_of_failures_gives_up(
    ctx: CtxView,
    p: ParamsView,
    events: Seq<(TickEventView, Timestamp)>,
    h: HandleView,
    end: Timestamp,
)
    requires
        ctx.generation == p.generation,
        ctx.handle == Some(h),
        p.threshold >= 1,
        failing_rounds(events, p.threshold as nat),
    ensures
        ({
            let s = run(fresh(), ctx, p, events);
            let t = run(fresh(), ctx, p, events.push((TickEventView::Disabled, end)));
            let n = s.actions.len();
            &&& s.actions.last() == MonitorActionView::Disable(h)
            &&& t.next == at_rest(HealthState::Fallback)
            &&& gave_up(t.ctx, ctx, end)
            &&& t.actions.len() == n + 2
            &&& t.actions.take(n as int) == s.actions
            &&& t.actions[n as int] == MonitorActionView::Persist(t.ctx.runtime)
            &&& tells(
                t.actions[n as int + 1],
                (EventTypeView::AutoFallbackTriggered {
                    reason: why_given_up(p.threshold as nat, p.threshold as nat),
                }),
                end,
            )
        }),
{
    let k = p.threshold as nat;
    let front = events.take(2 * k - 2);
    let (t1, t2) = (events[2 * k - 2].1, events[2 * k - 1].1);
    assert(events.drop_last().drop_last() =~= front);
    assert(events.drop_last().last() == events[2 * k - 2]);
    assert(events[2 * k - 2].0 == TickEventView::Due);
    assert(events[2 * k - 1].0 == TickEventView::Probed(false));
    assert forall|i: int| 0 <= i < front.len() implies (#[trigger] front[i]).0 == (if i % 2 == 0 {
        TickEventView::Due
    } else {
        TickEventView::Probed(false)
    }) by {
        assert(front[i] == events[i]);
    }
    failures_below_threshold_keep_the_switch(ctx, p, front, (k - 1) as nat);
    if k > 1 {
        row_of_failures_is_shown(ctx, p, front, (k - 1) as nat);
    } else {
        assert(front =~= Seq::empty());
    }
    reveal_with_fuel(run, 3);
    let before = run(fresh(), ctx, p, front);
    let a = stepped(before.next, before.ctx, p, TickEventView::Due, t1);
    round_begins_with_a_probe(before.next.state, before.ctx, p, t1);
    failure_at_the_threshold_gives_up((k - 1) as u32, a.ctx, p, t2);
    undone_switch_is_given_up((k - 1) as u32, a.ctx, p, t2, end);
    let b = stepped(a.next, a.ctx, p, TickEventView::Probed(false), t2);
    let s = run(fresh(), ctx, p, events);
    assert(s.actions =~= before.actions + a.actions + b.actions);
    let all = events.push((TickEventView::Disabled, end));
    assert(all.drop_last() =~= events);
    let t = run(fresh(), ctx, p, all);
    assert(t.actions.take(s.actions.len() as int) =~= s.actions);
}

/// One success within a row of failures begins the count anew: the next failure is the first
/// again.
pub proof fn count_begins_anew_after_a_success(
    n: u32,
    ctx: CtxView,
    p: ParamsView,
    t1: Timestamp,
    t2: Timestamp,
    t3: Timestamp,
)
    requires
        ctx.generation == p.generation,
        p.threshold > 1,
    ensures
        ({
            let l = HealthLoop { state: HealthState::Degraded(n), phase: TickPhase::Probing };
            let a = stepped(l, ctx, p, TickEventView::Probed(true), t1);
            let b = stepped(a.next, a.ctx, p, TickEventView::Due, t2);
            let c = stepped(b.next, b.ctx, p, TickEventView::Probed(false), t3);
            c.ctx.runtime.health == (HealthStatus::Degraded { consecutive_failures: 1 })
        }),
{
}

/// What is written is what clients see, and it says whether the switch is in effect.
pub proof fn written_state_tells_the_switch(
    l: HealthLoop,
    ctx: CtxView,
    p: ParamsView,
    ev: TickEventView,
    now: Timestamp,
    i: int,
    rs: RuntimeState,
)
    requires
        l.wf(),
        0 <= i < stepped(l, ctx, p, ev, now).actions.len(),
        stepped(l, ctx, p, ev, now).actions[i] == MonitorActionView::Persist(rs),
    ensures
        ({
            let s = stepped(l, ctx, p, ev, now);
            &&& rs == s.ctx.runtime
            &&& rs.is_enabled <==> s.ctx.handle is Some
            &&& rs.is_enabled ==> rs.current_mode == Some(p.mode)
            &&& !rs.is_enabled ==> rs.current_mode is None
        }),
{
}

} // verus!
