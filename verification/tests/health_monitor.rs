use route_tool::addr::{IpAddr, Ipv4Addr};
use route_tool::error::CoreError;
use route_tool::health_monitor::{
    HealthCtx, HealthLoop, HealthParams, HealthState, MonitorAction, TickEvent, TickPhase,
    PING_TIMEOUT_MS,
};
use route_tool::protocol::{
    BypassTarget, HealthEventType, HealthStatus, RuntimeState, SwitchHandle, SwitchMode, Timestamp,
};

const NOW: Timestamp = Timestamp {
    secs: 1_800_000_000,
    nanos: 7,
};

fn handle() -> SwitchHandle {
    SwitchHandle {
        mode: SwitchMode::RouteOverlay,
        if_index: Some(1),
        if_luid: Some(1),
        destination_prefix: Some("0.0.0.0/0".to_string()),
        next_hop: Some(IpAddr::V4(Ipv4Addr::new(10, 0, 0, 1))),
        adapter_id: None,
        extra_routes: vec![],
    }
}

fn ctx() -> HealthCtx {
    HealthCtx {
        handle: Some(handle()),
        runtime: RuntimeState {
            is_enabled: true,
            current_mode: Some(SwitchMode::RouteOverlay),
            health: HealthStatus::Healthy,
            ..RuntimeState::default_at(NOW)
        },
        generation: 0,
    }
}

fn params(threshold: u32, auto_reenable: bool) -> HealthParams {
    HealthParams {
        mode: SwitchMode::RouteOverlay,
        target: BypassTarget {
            adapter_id: "guid".to_string(),
            bypass_ip: IpAddr::V4(Ipv4Addr::new(10, 0, 0, 1)),
            dns: None,
            subnet_mask: None,
            static_ip: None,
        },
        interval_secs: 3600,
        threshold,
        auto_reenable,
        generation: 0,
    }
}

fn healthy() -> HealthLoop {
    HealthLoop::start()
}

/// A host whose first probes fail and whose switches always succeed.
struct Host {
    fail_first: u32,
    pings: u32,
    enables: u32,
    disables: u32,
    active: bool,
    events: Vec<HealthEventType>,
    written: Vec<RuntimeState>,
}

impl Host {
    fn new(fail_first: u32) -> Host {
        Host {
            fail_first,
            pings: 0,
            enables: 0,
            disables: 0,
            active: true,
            events: Vec::new(),
            written: Vec::new(),
        }
    }

    fn tick(&mut self, ctx: &mut HealthCtx, p: &HealthParams, l: &mut HealthLoop) {
        let mut event = TickEvent::Due;
        loop {
            let mut answer = None;
            for action in l.step(ctx, p, event, NOW) {
                match action {
                    MonitorAction::Emit(e) => {
                        assert_eq!(e.at, NOW);
                        assert_eq!(e.reason, None);
                        self.events.push(e.event_type);
                    }
                    MonitorAction::Persist(rs) => self.written.push(rs),
                    MonitorAction::Ping { ip, timeout_ms } => {
                        assert_eq!(ip, IpAddr::V4(Ipv4Addr::new(10, 0, 0, 1)));
                        assert_eq!(timeout_ms, PING_TIMEOUT_MS);
                        self.pings += 1;
                        if self.fail_first == 0 {
                            answer = Some(TickEvent::Probed(Ok(Some(3))));
                        } else {
                            self.fail_first -= 1;
                            answer = Some(TickEvent::Probed(Ok(None)));
                        }
                    }
                    MonitorAction::CheckActive(h) => {
                        assert_eq!(h, handle());
                        answer = Some(TickEvent::Checked(Ok(self.active)));
                    }
                    MonitorAction::Enable(t) => {
                        assert_eq!(t, p.target);
                        self.enables += 1;
                        answer = Some(TickEvent::Enabled(Ok(handle())));
                    }
                    MonitorAction::Disable(h) => {
                        assert_eq!(h, handle());
                        self.disables += 1;
                        answer = Some(TickEvent::Disabled(Ok(())));
                    }
                }
            }
            match answer {
                Some(e) => event = e,
                None => break,
            }
        }
        assert_eq!(l.phase, TickPhase::Ready);
    }
}

#[test]
fn healthy_stays_healthy_on_success() {
    let mut host = Host::new(0);
    let mut c = ctx();
    let p = params(3, false);
    let mut l = healthy();
    host.tick(&mut c, &p, &mut l);
    assert_eq!(l.state, HealthState::Healthy);
    assert_eq!(c.runtime.health, HealthStatus::Healthy);
    assert!(c.runtime.is_enabled);
}

#[test]
fn failures_degrade_then_fallback_at_threshold() {
    let mut host = Host::new(u32::MAX);
    let mut c = ctx();
    let p = params(3, false);
    let mut l = healthy();

    host.tick(&mut c, &p, &mut l);
    assert_eq!(l.state, HealthState::Degraded(1));
    assert_eq!(
        host.events,
        vec![HealthEventType::ProbeFailed {
            consecutive_count: 1
        }]
    );
    assert_eq!(
        c.runtime.health,
        HealthStatus::Degraded {
            consecutive_failures: 1
        }
    );

    host.tick(&mut c, &p, &mut l);
    assert_eq!(l.state, HealthState::Degraded(2));

    host.tick(&mut c, &p, &mut l);
    assert_eq!(l.state, HealthState::Fallback);
    assert!(c.handle.is_none());
    assert_eq!(c.runtime.health, HealthStatus::Fallback);
    assert!(!c.runtime.is_enabled);
    assert_eq!(host.disables, 1);

    assert_eq!(host.events.len(), 4);
    assert_eq!(
        host.events[1],
        HealthEventType::ProbeFailed {
            consecutive_count: 2
        }
    );
    assert_eq!(
        host.events[2],
        HealthEventType::ProbeFailed {
            consecutive_count: 3
        }
    );
    assert_eq!(
        host.events[3],
        HealthEventType::AutoFallbackTriggered {
            reason: "连续探测失败 3/3 次".to_string()
        }
    );
    assert_eq!(host.written, vec![c.runtime]);
}

#[test]
fn recovery_from_degraded_clears_count() {
    let mut host = Host::new(1);
    let mut c = ctx();
    let p = params(3, false);
    let mut l = healthy();
    host.tick(&mut c, &p, &mut l);
    assert_eq!(l.state, HealthState::Degraded(1));
    host.tick(&mut c, &p, &mut l);
    assert_eq!(l.state, HealthState::Healthy);
    assert!(matches!(
        host.events[0],
        HealthEventType::ProbeFailed { .. }
    ));
    assert_eq!(host.events[1], HealthEventType::ProbeRecovered);
}

#[test]
fn fallback_with_auto_reenable_restarts_strategy() {
    let mut host = Host::new(1);
    let mut c = ctx();
    let p = params(1, true);
    let mut l = healthy();

    host.tick(&mut c, &p, &mut l);
    assert_eq!(l.state, HealthState::Fallback);
    assert_eq!(host.disables, 1);

    host.tick(&mut c, &p, &mut l);
    assert_eq!(l.state, HealthState::Healthy);
    assert_eq!(host.enables, 1);
    assert!(c.handle.is_some());
    assert!(c.runtime.is_enabled);

    assert_eq!(host.events.len(), 3);
    assert_eq!(
        host.events[1],
        HealthEventType::AutoFallbackTriggered {
            reason: "阈值=1，首次探测即失败".to_string()
        }
    );
    assert_eq!(host.events[2], HealthEventType::ProbeRecovered);
}

#[test]
fn fallback_without_auto_reenable_stays_direct() {
    let mut host = Host::new(u32::MAX);
    let mut c = ctx();
    let p = params(1, false);
    let mut l = healthy();
    host.tick(&mut c, &p, &mut l);
    assert_eq!(l.state, HealthState::Fallback);
    host.tick(&mut c, &p, &mut l);
    assert_eq!(l.state, HealthState::Fallback);
    assert_eq!(host.enables, 0);
    assert!(c.handle.is_none());
}

#[test]
fn idle_never_probes() {
    let mut host = Host::new(u32::MAX);
    let mut c = ctx();
    let p = params(3, false);
    let mut l = HealthLoop {
        state: HealthState::Idle,
        phase: TickPhase::Ready,
    };
    host.tick(&mut c, &p, &mut l);
    assert_eq!(l.state, HealthState::Idle);
    assert_eq!(c.runtime.health, HealthStatus::Healthy);
    assert!(host.events.is_empty());
    assert_eq!(host.pings, 0);
}

#[test]
fn stale_generation_loop_produces_no_side_effects() {
    let mut host = Host::new(u32::MAX);
    let mut c = ctx();
    let p = params(1, false);
    let mut l = healthy();
    c.generation = 1;
    host.tick(&mut c, &p, &mut l);
    assert_eq!(l.state, HealthState::Healthy);
    assert_eq!(host.disables, 0);
    assert_eq!(host.enables, 0);
    assert!(host.events.is_empty());
    assert!(host.written.is_empty());
}

#[test]
fn answers_for_a_replaced_monitor_are_dropped() {
    let mut c = ctx();
    let p = params(1, false);
    let mut l = healthy();
    assert_eq!(l.step(&mut c, &p, TickEvent::Due, NOW).len(), 1);
    c.generation = 1;
    let before = c.runtime;
    let actions = l.step(&mut c, &p, TickEvent::Probed(Ok(None)), NOW);
    assert!(actions.is_empty());
    assert_eq!(c.runtime, before);
    assert!(c.handle.is_some());
}

#[test]
fn switch_made_by_a_replaced_monitor_is_undone() {
    let mut c = ctx();
    c.handle = None;
    let p = params(1, true);
    let mut l = HealthLoop {
        state: HealthState::Fallback,
        phase: TickPhase::Reenabling,
    };
    c.generation = 1;
    let actions = l.step(&mut c, &p, TickEvent::Enabled(Ok(handle())), NOW);
    assert_eq!(actions.len(), 1);
    assert!(matches!(actions[0], MonitorAction::Disable(_)));
    assert!(c.handle.is_none());
    assert_eq!(l.phase, TickPhase::Undoing);

    // Another switch is in effect: nothing is undone.
    c.handle = Some(handle());
    let mut l = HealthLoop {
        state: HealthState::Fallback,
        phase: TickPhase::Reenabling,
    };
    assert!(l
        .step(&mut c, &p, TickEvent::Enabled(Ok(handle())), NOW)
        .is_empty());
}

#[test]
fn lost_switch_is_made_again() {
    let mut host = Host::new(0);
    host.active = false;
    let mut c = ctx();
    let p = params(3, false);
    let mut l = healthy();
    host.tick(&mut c, &p, &mut l);
    assert_eq!(host.enables, 1);
    assert_eq!(l.state, HealthState::Healthy);
    assert_eq!(host.written.len(), 1);
}

#[test]
fn errors_count_as_documented() {
    let p = params(1, false);

    // A probe that fails with an error is a failure.
    let mut c = ctx();
    let mut l = healthy();
    l.step(&mut c, &p, TickEvent::Due, NOW);
    let error = CoreError::Network("x".to_string());
    l.step(&mut c, &p, TickEvent::Probed(Err(error)), NOW);
    assert_eq!(l.state, HealthState::Degraded(1));
    assert_eq!(
        l.phase,
        TickPhase::FallingBack {
            first: true,
            count: 1
        }
    );

    // A switch that cannot be undone is given up nevertheless.
    let error = CoreError::Other("y".to_string());
    l.step(&mut c, &p, TickEvent::Disabled(Err(error)), NOW);
    assert_eq!(l.state, HealthState::Fallback);
    assert!(c.handle.is_none());

    // A check that fails with an error does not count as lost.
    let mut c = ctx();
    let mut l = healthy();
    l.step(&mut c, &p, TickEvent::Due, NOW);
    l.step(&mut c, &p, TickEvent::Probed(Ok(Some(1))), NOW);
    assert_eq!(l.phase, TickPhase::Checking);
    let error = CoreError::Network("z".to_string());
    let actions = l.step(&mut c, &p, TickEvent::Checked(Err(error)), NOW);
    assert!(actions.is_empty());
    assert_eq!(l.phase, TickPhase::Ready);

    // Re-enabling that fails leaves the fallback in place.
    let p = params(1, true);
    let mut l = HealthLoop {
        state: HealthState::Fallback,
        phase: TickPhase::Reenabling,
    };
    let error = CoreError::Network("w".to_string());
    let actions = l.step(&mut c, &p, TickEvent::Enabled(Err(error)), NOW);
    assert!(actions.is_empty());
    assert_eq!(l.state, HealthState::Fallback);
}

#[test]
fn unexpected_answers_are_ignored() {
    let mut c = ctx();
    let p = params(3, false);
    let mut l = healthy();
    assert!(l
        .step(&mut c, &p, TickEvent::Probed(Ok(None)), NOW)
        .is_empty());
    assert_eq!(l, healthy());
}
