//! What holds of every run of the health monitor.

use vstd::prelude::*;

use crate::health_monitor::{
    awaited, event_at, fallback_reason, recovered_at, shown, stepped, CtxView, HealthLoop,
    HealthState, MonitorActionView, ParamsView, StepView, TickEventView, TickPhase, PING_TIMEOUT_MS,
};
use crate::protocol::{EventTypeView, HandleView, HealthStatus, Timestamp};

verus! {

/// What a run of steps comes to: the last state and context, and all actions in order.
pub open spec fn run(
    l: HealthLoop,
    ctx: CtxView,
    p: ParamsView,
    events: Seq<(TickEventView, Timestamp)>,
) -> StepView
    decreases events.len(),
{
    if events.len() == 0 {
        StepView { next: l, ctx, actions: seq![] }
    } else {
        let before = run(l, ctx, p, events.drop_last());
        let s = stepped(before.next, before.ctx, p, events.last().0, events.last().1);
        StepView { actions: before.actions + s.actions, ..s }
    }
}

/// A monitor that has been replaced changes nothing: neither what it thinks nor the
/// shared context. The one thing it still does is to undo a switch that it had made
/// itself, while no other switch is in effect.
pub proof fn replaced_monitor_has_no_effect(
    l: HealthLoop,
    ctx: CtxView,
    p: ParamsView,
    ev: TickEventView,
    now: Timestamp,
)
    requires
        ctx.generation != p.generation,
    ensures
        ({
            let s = stepped(l, ctx, p, ev, now);
            &&& s.ctx == ctx
            &&& s.next.state == l.state
            &&& s.actions.len() <= 1
            &&& forall|i: int|
                0 <= i < s.actions.len() ==> {
                    &&& ctx.handle is None
                    &&& ev matches TickEventView::Enabled(Some(h))
                    &&& #[trigger] s.actions[i] == MonitorActionView::Disable(h)
                }
        }),
{
}

/// A whole run of a monitor that has been replaced leaves the shared context alone.
pub proof fn replaced_monitor_never_touches_the_context(
    l: HealthLoop,
    ctx: CtxView,
    p: ParamsView,
    events: Seq<(TickEventView, Timestamp)>,
)
    requires
        ctx.generation != p.generation,
    ensures
        run(l, ctx, p, events).ctx == ctx,
        run(l, ctx, p, events).next.state == l.state,
    decreases events.len(),
{
    if events.len() > 0 {
        replaced_monitor_never_touches_the_context(l, ctx, p, events.drop_last());
        let before = run(l, ctx, p, events.drop_last());
        replaced_monitor_has_no_effect(
            before.next,
            ctx,
            p,
            events.last().0,
            events.last().1,
        );
    }
}

/// A monitor of a bypass that is not enabled never probes, whatever it is told.
pub proof fn idle_monitor_never_probes(
    ctx: CtxView,
    p: ParamsView,
    events: Seq<(TickEventView, Timestamp)>,
)
    ensures
        ({
            let idle = HealthLoop { state: HealthState::Idle, phase: TickPhase::Ready };
            let s = run(idle, ctx, p, events);
            s.next == idle && s.ctx == ctx && s.actions.len() == 0
        }),
    decreases events.len(),
{
    if events.len() > 0 {
        idle_monitor_never_probes(ctx, p, events.drop_last());
    }
}

/// The first round of a monitor probes the bypass router.
pub proof fn first_round_probes(ctx: CtxView, p: ParamsView, now: Timestamp)
    requires
        ctx.generation == p.generation,
    ensures
        stepped(
            HealthLoop { state: HealthState::Healthy, phase: TickPhase::Ready },
            ctx,
            p,
            TickEventView::Due,
            now,
        ).actions == seq![
            MonitorActionView::Ping { ip: p.target.bypass_ip, timeout_ms: PING_TIMEOUT_MS },
        ],
{
}

/// Steps keep what a monitor waits for in line with what it thinks.
pub proof fn steps_keep_wf(
    l: HealthLoop,
    ctx: CtxView,
    p: ParamsView,
    ev: TickEventView,
    now: Timestamp,
)
    requires
        l.wf(),
    ensures
        stepped(l, ctx, p, ev, now).next.wf(),
{
}

/// `k` rounds whose probes all fail.
pub open spec fn failing_rounds(events: Seq<(TickEventView, Timestamp)>, k: nat) -> bool {
    &&& events.len() == 2 * k
    &&& forall|i: int|
        0 <= i < events.len() ==> (#[trigger] events[i]).0 == if i % 2 == 0 {
            TickEventView::Due
        } else {
            TickEventView::Probed(false)
        }
}

/// The state after `k` failures in a row.
pub open spec fn degraded(k: nat) -> HealthState {
    if k == 0 {
        HealthState::Healthy
    } else {
        HealthState::Degraded(k as u32)
    }
}

/// Whether an action leaves the switch as it is.
pub open spec fn keeps_switch(a: MonitorActionView) -> bool {
    a is Emit || a is Ping
}

proof fn lemma_split_round(
    l: HealthLoop,
    ctx: CtxView,
    p: ParamsView,
    events: Seq<(TickEventView, Timestamp)>,
    k: nat,
)
    requires
        k >= 1,
        failing_rounds(events, k),
    ensures
        ({
            let front = events.take(2 * k - 2);
            let before = run(l, ctx, p, front);
            let (t1, t2) = (events[2 * k - 2].1, events[2 * k - 1].1);
            let a = stepped(before.next, before.ctx, p, TickEventView::Due, t1);
            let b = stepped(a.next, a.ctx, p, TickEventView::Probed(false), t2);
            &&& failing_rounds(front, (k - 1) as nat)
            &&& run(l, ctx, p, events) == (StepView {
                actions: before.actions + a.actions + b.actions,
                ..b
            })
        }),
{
    let front = events.take(2 * k - 2);
    assert(events.drop_last().drop_last() =~= front);
    assert(events.drop_last().last() == events[2 * k - 2]);
    assert(events[2 * k - 2].0 == TickEventView::Due);
    assert(events[2 * k - 1].0 == TickEventView::Probed(false));
    assert forall|i: int| 0 <= i < front.len() implies (#[trigger] front[i]).0 == (if i % 2 == 0 {
        TickEventView::Due
    } else {
        TickEventView::Probed(false)
    }) by {
        assert(front[i] == events[i]);
    }
    reveal_with_fuel(run, 3);
}

/// Failures short of the threshold are counted and leave the switch alone: the bypass is
/// not given up too early.
pub proof fn failures_below_threshold_keep_the_switch(
    ctx: CtxView,
    p: ParamsView,
    events: Seq<(TickEventView, Timestamp)>,
    k: nat,
)
    requires
        ctx.generation == p.generation,
        k == 0 || k < p.threshold,
        failing_rounds(events, k),
    ensures
        ({
            let s = run(
                HealthLoop { state: HealthState::Healthy, phase: TickPhase::Ready },
                ctx,
                p,
                events,
            );
            &&& s.next == (HealthLoop { state: degraded(k), phase: TickPhase::Ready })
            &&& s.ctx.handle == ctx.handle
            &&& s.ctx.generation == ctx.generation
            &&& s.ctx.runtime.is_enabled == ctx.runtime.is_enabled
            &&& s.ctx.runtime.current_mode == ctx.runtime.current_mode
            &&& forall|i: int| 0 <= i < s.actions.len() ==> keeps_switch(#[trigger] s.actions[i])
        }),
    decreases k,
{
    if k > 0 {
        let start = HealthLoop { state: HealthState::Healthy, phase: TickPhase::Ready };
        lemma_split_round(start, ctx, p, events, k);
        failures_below_threshold_keep_the_switch(
            ctx,
            p,
            events.take(2 * k - 2),
            (k - 1) as nat,
        );
        let before = run(start, ctx, p, events.take(2 * k - 2));
        let (t1, t2) = (events[2 * k - 2].1, events[2 * k - 1].1);
        let a = stepped(before.next, before.ctx, p, TickEventView::Due, t1);
        let b = stepped(a.next, a.ctx, p, TickEventView::Probed(false), t2);
        let s = run(start, ctx, p, events);
        assert forall|i: int| 0 <= i < s.actions.len() implies keeps_switch(#[trigger] s.actions[i]) by {
            let n = before.actions.len();
            let m = n + a.actions.len();
            if i < n {
                assert(s.actions[i] == before.actions[i]);
            } else if i < m {
                assert(s.actions[i] == a.actions[i - n]);
            } else {
                assert(s.actions[i] == b.actions[i - m]);
            }
        }
    }
}

/// At the threshold the switch is undone and forgotten, that is written down, and
/// clients are told why.
pub proof fn failures_at_threshold_fall_back(
    ctx: CtxView,
    p: ParamsView,
    events: Seq<(TickEventView, Timestamp)>,
    h: HandleView,
    end: Timestamp,
)
    requires
        ctx.generation == p.generation,
        ctx.handle == Some(h),
        p.threshold >= 1,
        failing_rounds(events, p.threshold as nat),
    ensures
        ({
            let start = HealthLoop { state: HealthState::Healthy, phase: TickPhase::Ready };
            let s = run(start, ctx, p, events);
            let t = run(start, ctx, p, events.push((TickEventView::Disabled, end)));
            &&& s.actions.last() == MonitorActionView::Disable(h)
            &&& t.next == (HealthLoop { state: HealthState::Fallback, phase: TickPhase::Ready })
            &&& t.ctx.handle is None
            &&& !t.ctx.runtime.is_enabled
            &&& t.ctx.runtime.current_mode is None
            &&& t.ctx.runtime.health == HealthStatus::Fallback
            &&& t.actions == s.actions + seq![
                MonitorActionView::Persist(t.ctx.runtime),
                MonitorActionView::Emit(
                    event_at(
                        EventTypeView::AutoFallbackTriggered {
                            reason: fallback_reason(p.threshold == 1, p.threshold, p.threshold),
                        },
                        end,
                    ),
                ),
            ]
        }),
{
    let start = HealthLoop { state: HealthState::Healthy, phase: TickPhase::Ready };
    let k = p.threshold as nat;
    lemma_split_round(start, ctx, p, events, k);
    failures_below_threshold_keep_the_switch(ctx, p, events.take(2 * k - 2), (k - 1) as nat);
    let s = run(start, ctx, p, events);
    assert(s.next.state == HealthState::Degraded(p.threshold));
    assert(events.push((TickEventView::Disabled, end)).drop_last() =~= events);
}

/// A switch is undone only by a failed probe that reaches the threshold.
pub proof fn only_the_threshold_undoes_a_switch(
    l: HealthLoop,
    ctx: CtxView,
    p: ParamsView,
    ev: TickEventView,
    now: Timestamp,
    i: int,
)
    requires
        ctx.generation == p.generation,
        0 <= i < stepped(l, ctx, p, ev, now).actions.len(),
        stepped(l, ctx, p, ev, now).actions[i] is Disable,
    ensures
        ev == TickEventView::Probed(false),
        ctx.handle == Some(stepped(l, ctx, p, ev, now).actions[i]->Disable_0),
        match l.state {
            HealthState::Healthy => p.threshold <= 1,
            HealthState::Degraded(n) => p.threshold <= n + 1,
            _ => false,
        },
{
}

/// A probe that succeeds clears the count.
pub proof fn success_clears_the_count(ctx: CtxView, p: ParamsView, n: u32, t1: Timestamp, t2: Timestamp)
    requires
        ctx.generation == p.generation,
    ensures
        ({
            let s = run(
                HealthLoop { state: HealthState::Degraded(n), phase: TickPhase::Ready },
                ctx,
                p,
                seq![(TickEventView::Due, t1), (TickEventView::Probed(true), t2)],
            );
            &&& s.next == (HealthLoop { state: HealthState::Healthy, phase: TickPhase::Ready })
            &&& s.ctx.runtime.health == HealthStatus::Healthy
            &&& s.ctx.handle == ctx.handle
            &&& s.actions == seq![
                MonitorActionView::Ping {
                    ip: p.target.bypass_ip,
                    timeout_ms: PING_TIMEOUT_MS,
                },
                recovered_at(t2),
            ]
        }),
{
    let events = seq![(TickEventView::Due, t1), (TickEventView::Probed(true), t2)];
    assert(events.drop_last() =~= seq![(TickEventView::Due, t1)]);
    assert(events.drop_last().drop_last() =~= Seq::<(TickEventView, Timestamp)>::empty());
    reveal_with_fuel(run, 3);
}

/// After a fallback the switch is not made again unless that was asked for: whatever
/// happens, the monitor stays where it is and only probes and tells.
pub proof fn fallback_stays_direct_without_auto_reenable(
    ctx: CtxView,
    p: ParamsView,
    events: Seq<(TickEventView, Timestamp)>,
)
    requires
        !p.auto_reenable,
    ensures
        ({
            let s = run(
                HealthLoop { state: HealthState::Fallback, phase: TickPhase::Ready },
                ctx,
                p,
                events,
            );
            &&& s.next.state == HealthState::Fallback
            &&& s.next.phase is Ready || s.next.phase is Probing
            &&& s.ctx.handle == ctx.handle
            &&& s.ctx.generation == ctx.generation
            &&& s.ctx.runtime.is_enabled == ctx.runtime.is_enabled
            &&& forall|i: int| 0 <= i < s.actions.len() ==> keeps_switch(#[trigger] s.actions[i])
        }),
    decreases events.len(),
{
    if events.len() > 0 {
        fallback_stays_direct_without_auto_reenable(ctx, p, events.drop_last());
        let start = HealthLoop { state: HealthState::Fallback, phase: TickPhase::Ready };
        let before = run(start, ctx, p, events.drop_last());
        let a = stepped(before.next, before.ctx, p, events.last().0, events.last().1);
        let s = run(start, ctx, p, events);
        assert forall|i: int| 0 <= i < s.actions.len() implies keeps_switch(#[trigger] s.actions[i]) by {
            let n = before.actions.len();
            if i < n {
                assert(s.actions[i] == before.actions[i]);
            } else {
                assert(s.actions[i] == a.actions[i - n]);
            }
        }
    }
}

/// With automatic re-enabling, a success after a fallback makes the switch again.
pub proof fn recovery_reenables_when_asked(
    ctx: CtxView,
    p: ParamsView,
    h: HandleView,
    t1: Timestamp,
    t2: Timestamp,
    t3: Timestamp,
)
    requires
        ctx.generation == p.generation,
        p.auto_reenable,
    ensures
        ({
            let s = run(
                HealthLoop { state: HealthState::Fallback, phase: TickPhase::Ready },
                ctx,
                p,
                seq![
                    (TickEventView::Due, t1),
                    (TickEventView::Probed(true), t2),
                    (TickEventView::Enabled(Some(h)), t3),
                ],
            );
            &&& s.next == (HealthLoop { state: HealthState::Healthy, phase: TickPhase::Ready })
            &&& s.ctx.handle == Some(h)
            &&& s.ctx.runtime.is_enabled
            &&& s.ctx.runtime.current_mode == Some(p.mode)
            &&& s.actions == seq![
                MonitorActionView::Ping {
                    ip: p.target.bypass_ip,
                    timeout_ms: PING_TIMEOUT_MS,
                },
                MonitorActionView::Enable(p.target),
                MonitorActionView::Persist(s.ctx.runtime),
                recovered_at(t3),
            ]
        }),
{
    let events = seq![
        (TickEventView::Due, t1),
        (TickEventView::Probed(true), t2),
        (TickEventView::Enabled(Some(h)), t3),
    ];
    assert(events.drop_last() =~= seq![
        (TickEventView::Due, t1),
        (TickEventView::Probed(true), t2),
    ]);
    assert(events.drop_last().drop_last() =~= seq![(TickEventView::Due, t1)]);
    assert(events.drop_last().drop_last().drop_last() =~= Seq::<(TickEventView, Timestamp)>::empty());
    reveal_with_fuel(run, 4);
}

/// While probes succeed, a switch that was lost is made again.
pub proof fn lost_switch_is_rebuilt(
    ctx: CtxView,
    p: ParamsView,
    old_handle: HandleView,
    new_handle: HandleView,
    t1: Timestamp,
    t2: Timestamp,
    t3: Timestamp,
    t4: Timestamp,
)
    requires
        ctx.generation == p.generation,
        ctx.handle == Some(old_handle),
    ensures
        ({
            let events = seq![
                (TickEventView::Due, t1),
                (TickEventView::Probed(true), t2),
                (TickEventView::Checked(false), t3),
                (TickEventView::Enabled(Some(new_handle)), t4),
            ];
            let s = run(
                HealthLoop { state: HealthState::Healthy, phase: TickPhase::Ready },
                ctx,
                p,
                events,
            );
            &&& s.next == (HealthLoop { state: HealthState::Healthy, phase: TickPhase::Ready })
            &&& s.ctx.handle == Some(new_handle)
            &&& s.ctx.runtime.is_enabled
            &&& s.actions == seq![
                MonitorActionView::Ping {
                    ip: p.target.bypass_ip,
                    timeout_ms: PING_TIMEOUT_MS,
                },
                MonitorActionView::CheckActive(old_handle),
                MonitorActionView::Enable(p.target),
                MonitorActionView::Persist(s.ctx.runtime),
            ]
        }),
{
    let events = seq![
        (TickEventView::Due, t1),
        (TickEventView::Probed(true), t2),
        (TickEventView::Checked(false), t3),
        (TickEventView::Enabled(Some(new_handle)), t4),
    ];
    let e3 = events.drop_last();
    let e2 = e3.drop_last();
    let e1 = e2.drop_last();
    assert(e3.last() == (TickEventView::Checked(false), t3));
    assert(e2.last() == (TickEventView::Probed(true), t2));
    assert(e1.last() == (TickEventView::Due, t1));
    assert(e1.drop_last() =~= Seq::<(TickEventView, Timestamp)>::empty());
    reveal_with_fuel(run, 5);
}

/// Whenever a round of the current monitor ends, clients see what the monitor thinks.
pub proof fn clients_see_the_state_after_each_round(
    l: HealthLoop,
    ctx: CtxView,
    p: ParamsView,
    ev: TickEventView,
    now: Timestamp,
)
    requires
        l.wf(),
        ctx.generation == p.generation,
        l.phase !is Ready,
        l.phase !is Undoing,
        awaited(l.phase, ev),
        stepped(l, ctx, p, ev, now).next.phase is Ready,
    ensures
        ({
            let s = stepped(l, ctx, p, ev, now);
            s.ctx.runtime.health == shown(s.next.state) && s.ctx.runtime.last_updated == now
        }),
{
}

/// What is written to disk is the state that clients see.
pub proof fn written_state_is_the_current_one(
    l: HealthLoop,
    ctx: CtxView,
    p: ParamsView,
    ev: TickEventView,
    now: Timestamp,
    i: int,
)
    requires
        l.wf(),
        0 <= i < stepped(l, ctx, p, ev, now).actions.len(),
    ensures
        ({
            let s = stepped(l, ctx, p, ev, now);
            s.actions[i] matches MonitorActionView::Persist(rs) ==> rs == s.ctx.runtime
        }),
{
}

} // verus!
