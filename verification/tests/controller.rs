use route_tool::addr::{IpAddr, Ipv4Addr};
use route_tool::controller::{
    is_valid_ipv4, validate_config, ControlAction, ControlEvent, ControlPhase, Controller,
};
use route_tool::error::CoreError;
use route_tool::health_monitor::{HealthLoop, MonitorAction, TickEvent};
use route_tool::protocol::{
    AdapterInfo, AppConfig, HealthStatus, RuntimeState, SwitchHandle, SwitchMode, Timestamp,
};
use route_tool::state::ServerState;

const NOW: Timestamp = Timestamp { secs: 100, nanos: 0 };

fn config(mode: SwitchMode) -> AppConfig {
    let mut c = AppConfig::default();
    c.adapter_id = "{A}".to_string();
    c.bypass_ip = IpAddr::V4(Ipv4Addr::new(10, 0, 0, 1));
    c.switch_mode = mode;
    c
}

fn handle(mode: SwitchMode) -> SwitchHandle {
    SwitchHandle {
        mode,
        if_index: Some(1),
        if_luid: Some(2),
        destination_prefix: None,
        next_hop: None,
        adapter_id: None,
        extra_routes: vec![],
    }
}

fn adapter(gateway: IpAddr) -> AdapterInfo {
    AdapterInfo {
        id: "{A}".to_string(),
        name: "Ethernet".to_string(),
        kind: "if_type=6".to_string(),
        mac: None,
        ipv4: vec![IpAddr::V4(Ipv4Addr::new(10, 0, 0, 7))],
        ipv4_prefixes: vec![24],
        gateway: vec![gateway],
        dns: vec![],
        is_connected: true,
    }
}

fn controller(mode: SwitchMode) -> Controller {
    Controller::new(config(mode), RuntimeState::default_at(NOW))
}

fn enabled_overlay() -> Controller {
    let mut c = controller(SwitchMode::RouteOverlay);
    c.enable(NOW);
    c.step(
        ControlEvent::Enabled(Ok(handle(SwitchMode::RouteOverlay))),
        NOW,
    );
    c.step(ControlEvent::Done(Ok(())), NOW);
    c
}

fn finished(a: Option<ControlAction>) -> Result<(), CoreError> {
    match a {
        Some(ControlAction::Finish(r)) => r,
        other => panic!("not finished: {other:?}"),
    }
}

fn message(a: Option<ControlAction>) -> String {
    match finished(a) {
        Ok(()) => panic!("an error was expected"),
        Err(e) => e.message(),
    }
}

#[test]
fn incomplete_configuration_is_refused() {
    let mut c = Controller::new(AppConfig::default(), RuntimeState::default_at(NOW));
    assert_eq!(
        message(c.enable(NOW)),
        "配置未完成：请先在设置中完成网卡与旁路由 IP 配置"
    );
    assert!(!is_valid_ipv4(&IpAddr::V4(Ipv4Addr::new(0, 0, 0, 0))));
    assert!(is_valid_ipv4(&IpAddr::V4(Ipv4Addr::new(10, 0, 0, 1))));
}

#[test]
fn overlay_is_enabled_and_disabled() {
    let mut c = enabled_overlay();
    assert!(c.ctx.runtime.is_enabled);
    assert_eq!(c.ctx.runtime.current_mode, Some(SwitchMode::RouteOverlay));
    assert_eq!(c.ctx.runtime.health, HealthStatus::Healthy);
    let generation = match &c.monitor {
        Some(p) => {
            assert_eq!(p.threshold, 3);
            assert_eq!(p.interval_secs, 5);
            assert_eq!(p.generation, c.ctx.generation);
            p.generation
        }
        None => panic!("a monitor runs"),
    };

    match c.disable(NOW) {
        Some(ControlAction::DisableStrategy(h)) => assert_eq!(h, handle(SwitchMode::RouteOverlay)),
        other => panic!("{other:?}"),
    }
    assert!(c.monitor.is_none());
    assert_ne!(c.ctx.generation, generation);
    match c.step(ControlEvent::Done(Ok(())), NOW) {
        Some(ControlAction::SaveRuntime(rs)) => assert_eq!(rs, RuntimeState::default_at(NOW)),
        other => panic!("{other:?}"),
    }
    assert!(finished(c.step(ControlEvent::Done(Ok(())), NOW)).is_ok());
    assert!(c.ctx.handle.is_none());

    // Once more: there is nothing to undo, and that is fine.
    assert!(matches!(
        c.disable(NOW),
        Some(ControlAction::SaveRuntime(_))
    ));
    assert!(finished(c.step(ControlEvent::Done(Ok(())), NOW)).is_ok());
}

#[test]
fn failing_to_disable_is_reported() {
    let mut c = enabled_overlay();
    c.disable(NOW);
    let e = CoreError::Network("boom".to_string());
    assert_eq!(
        message(c.step(ControlEvent::Done(Err(e)), NOW)),
        "网络操作失败：boom"
    );
    assert!(matches!(c.phase, ControlPhase::Ready));
}

#[test]
fn enabling_twice_undoes_the_first_switch() {
    let mut c = enabled_overlay();
    assert!(matches!(
        c.enable(NOW),
        Some(ControlAction::DisableStrategy(_))
    ));
    assert!(matches!(
        c.step(ControlEvent::Done(Ok(())), NOW),
        Some(ControlAction::SaveRuntime(_))
    ));
    assert!(matches!(
        c.step(ControlEvent::Done(Ok(())), NOW),
        Some(ControlAction::EnableStrategy(SwitchMode::RouteOverlay, _))
    ));
}

#[test]
fn adapter_is_backed_up_first() {
    let gateway = IpAddr::V4(Ipv4Addr::new(10, 0, 0, 254));
    let mut c = controller(SwitchMode::AdapterReconfig);
    assert!(matches!(c.enable(NOW), Some(ControlAction::ListAdapters)));
    match c.step(ControlEvent::Adapters(Ok(vec![adapter(gateway)])), NOW) {
        Some(ControlAction::QueryDhcp(id)) => assert_eq!(id, "{A}"),
        other => panic!("{other:?}"),
    }
    match c.step(ControlEvent::Dhcp(Some(true)), NOW) {
        Some(ControlAction::SaveSnapshot(s)) => {
            assert!(s.is_dhcp_enabled);
            assert_eq!(s.gateway, vec![gateway]);
            assert_eq!(s.static_ipv4_mask, vec![24]);
        }
        other => panic!("{other:?}"),
    }
    assert!(matches!(
        c.step(ControlEvent::Done(Ok(())), NOW),
        Some(ControlAction::EnableStrategy(SwitchMode::AdapterReconfig, _))
    ));

    let mut c = controller(SwitchMode::AdapterReconfig);
    c.enable(NOW);
    assert_eq!(
        message(c.step(ControlEvent::Adapters(Ok(vec![])), NOW)),
        "网络操作失败：网卡 {A} 不存在"
    );
    c.enable(NOW);
    assert_eq!(
        message(c.step(ControlEvent::Adapters(Err("no".to_string())), NOW)),
        "网络操作失败：枚举网卡失败: no"
    );
}

#[test]
fn configuration_is_validated() {
    let ok = config(SwitchMode::RouteOverlay);
    assert!(validate_config(&ok).is_ok());
    let mut c = ok.clone();
    c.health_check_interval_secs = 0;
    assert!(validate_config(&c).is_err());
    let mut c = ok.clone();
    c.failure_threshold = 0;
    assert!(validate_config(&c).is_err());
    let mut c = ok.clone();
    c.subnet_mask = Some(Ipv4Addr::new(255, 0, 255, 0));
    assert!(validate_config(&c).is_ok());
    c.switch_mode = SwitchMode::AdapterReconfig;
    assert!(matches!(
        validate_config(&c),
        Err(e) if e.message() == "配置未完成：子网掩码无效"
    ));
    c.subnet_mask = Some(Ipv4Addr::new(255, 255, 0, 0));
    assert!(validate_config(&c).is_ok());
    let mut c = ok.clone();
    c.adapter_id = String::new();
    assert!(validate_config(&c).is_err());
}

#[test]
fn new_configuration_takes_effect() {
    // Another router: the switch is replayed.
    let mut c = enabled_overlay();
    let mut new = config(SwitchMode::RouteOverlay);
    new.bypass_ip = IpAddr::V4(Ipv4Addr::new(10, 0, 0, 2));
    assert!(matches!(
        c.update_config(new, NOW),
        Some(ControlAction::SaveConfig(_))
    ));
    assert!(matches!(
        c.step(ControlEvent::Done(Ok(())), NOW),
        Some(ControlAction::DisableStrategy(_))
    ));
    c.step(ControlEvent::Done(Ok(())), NOW);
    match c.step(ControlEvent::Done(Ok(())), NOW) {
        Some(ControlAction::EnableStrategy(_, t)) => {
            assert_eq!(t.bypass_ip, IpAddr::V4(Ipv4Addr::new(10, 0, 0, 2)))
        }
        other => panic!("{other:?}"),
    }

    // Another threshold: only the monitor is replaced.
    let mut c = enabled_overlay();
    let before = c.ctx.generation;
    let mut new = config(SwitchMode::RouteOverlay);
    new.failure_threshold = 9;
    c.update_config(new, NOW);
    assert!(finished(c.step(ControlEvent::Done(Ok(())), NOW)).is_ok());
    assert_ne!(c.ctx.generation, before);
    assert!(matches!(&c.monitor, Some(p) if p.threshold == 9));

    // The same again: nothing is replaced.
    let before = c.ctx.generation;
    let mut new = config(SwitchMode::RouteOverlay);
    new.failure_threshold = 9;
    c.update_config(new, NOW);
    assert!(finished(c.step(ControlEvent::Done(Ok(())), NOW)).is_ok());
    assert_eq!(c.ctx.generation, before);

    // Not written: nothing changes.
    let mut new = config(SwitchMode::RouteOverlay);
    new.failure_threshold = 4;
    c.update_config(new, NOW);
    let e = CoreError::Persistence("full".to_string());
    assert_eq!(
        message(c.step(ControlEvent::Done(Err(e)), NOW)),
        "状态持久化失败：full"
    );
    assert_eq!(c.config.failure_threshold, 9);
}

fn expected(mode: SwitchMode) -> Controller {
    Controller::new(
        config(mode),
        RuntimeState {
            is_enabled: true,
            current_mode: Some(mode),
            ..RuntimeState::default_at(NOW)
        },
    )
}

#[test]
fn startup_puts_things_right() {
    // Direct: leftovers go.
    let mut c = controller(SwitchMode::RouteOverlay);
    assert!(matches!(
        c.reconcile_on_startup(NOW),
        Some(ControlAction::CleanupRoutes(_))
    ));
    assert!(matches!(
        c.step(ControlEvent::Done(Ok(())), NOW),
        Some(ControlAction::ClearSnapshot)
    ));
    assert!(finished(c.step(ControlEvent::Done(Ok(())), NOW)).is_ok());

    // Direct and never set up: no routes are looked for.
    let mut unset = config(SwitchMode::RouteOverlay);
    unset.bypass_ip = IpAddr::V4(Ipv4Addr::new(0, 0, 0, 0));
    let mut c = Controller::new(unset, RuntimeState::default_at(NOW));
    assert!(matches!(
        c.reconcile_on_startup(NOW),
        Some(ControlAction::ClearSnapshot)
    ));
    assert!(finished(c.step(ControlEvent::Done(Ok(())), NOW)).is_ok());

    // Overlay expected, but no router set: none is looked for.
    let mut unset = config(SwitchMode::RouteOverlay);
    unset.bypass_ip = IpAddr::V4(Ipv4Addr::new(0, 0, 0, 0));
    let mut c = expected(SwitchMode::RouteOverlay);
    c.config = unset;
    assert!(matches!(
        c.reconcile_on_startup(NOW),
        Some(ControlAction::EnableStrategy(SwitchMode::RouteOverlay, _))
    ));

    // Overlay: taken over, or made again.
    let mut c = expected(SwitchMode::RouteOverlay);
    assert!(matches!(
        c.reconcile_on_startup(NOW),
        Some(ControlAction::FindOverlay(_))
    ));
    let found = Some(handle(SwitchMode::RouteOverlay));
    assert!(finished(c.step(ControlEvent::Overlay(Ok(found)), NOW)).is_ok());
    assert!(c.ctx.handle.is_some());
    assert!(c.monitor.is_some());

    let mut c = expected(SwitchMode::RouteOverlay);
    c.reconcile_on_startup(NOW);
    assert!(matches!(
        c.step(ControlEvent::Overlay(Ok(None)), NOW),
        Some(ControlAction::EnableStrategy(SwitchMode::RouteOverlay, _))
    ));

    // Reconfigured adapter: in place, lost, or without a backup.
    let router = IpAddr::V4(Ipv4Addr::new(10, 0, 0, 1));
    let mut c = expected(SwitchMode::AdapterReconfig);
    assert!(matches!(
        c.reconcile_on_startup(NOW),
        Some(ControlAction::LoadSnapshot)
    ));
    assert!(matches!(
        c.step(ControlEvent::Snapshot(Ok(true)), NOW),
        Some(ControlAction::ListAdapters)
    ));
    let list = vec![adapter(router)];
    assert!(finished(c.step(ControlEvent::Adapters(Ok(list)), NOW)).is_ok());
    match &c.ctx.handle {
        Some(h) => assert_eq!(h.adapter_id.as_deref(), Some("{A}")),
        None => panic!("the adapter is in place"),
    }

    let mut c = expected(SwitchMode::AdapterReconfig);
    c.reconcile_on_startup(NOW);
    c.step(ControlEvent::Snapshot(Ok(true)), NOW);
    let list = vec![adapter(IpAddr::V4(Ipv4Addr::new(10, 0, 0, 9)))];
    assert!(matches!(
        c.step(ControlEvent::Adapters(Ok(list)), NOW),
        Some(ControlAction::EnableStrategy(SwitchMode::AdapterReconfig, _))
    ));

    let mut c = expected(SwitchMode::AdapterReconfig);
    c.reconcile_on_startup(NOW);
    assert!(matches!(
        c.step(ControlEvent::Snapshot(Ok(false)), NOW),
        Some(ControlAction::SaveRuntime(_))
    ));
    assert!(!c.ctx.runtime.is_enabled);
}

#[test]
fn answers_out_of_turn_are_ignored() {
    let mut s = ServerState::new(controller(SwitchMode::RouteOverlay));
    assert!(s
        .controller
        .step(ControlEvent::Done(Ok(())), NOW)
        .is_none());
    s.controller.enable(NOW);
    assert!(s.controller.enable(NOW).is_none());
    assert!(matches!(
        s.controller.phase,
        ControlPhase::Enabling(SwitchMode::RouteOverlay)
    ));
}

#[test]
fn late_answers_do_not_bring_the_switch_back() {
    let mut c = enabled_overlay();
    let params = match &c.monitor {
        Some(p) => p.clone(),
        None => panic!("a monitor runs"),
    };
    let mut monitor = HealthLoop::start();
    let out = monitor.step(&mut c.ctx, &params, TickEvent::Due, NOW);
    assert!(matches!(out[..], [MonitorAction::Ping { .. }]));

    // The bypass is disabled while the probe is under way.
    c.disable(NOW);
    c.step(ControlEvent::Done(Ok(())), NOW);
    assert!(finished(c.step(ControlEvent::Done(Ok(())), NOW)).is_ok());

    for event in [TickEvent::Probed(Ok(None)), TickEvent::Due] {
        assert!(monitor.step(&mut c.ctx, &params, event, NOW).is_empty());
        assert!(c.ctx.handle.is_none());
        assert_eq!(c.ctx.runtime, RuntimeState::default_at(NOW));
    }

    // Nor do they disturb the next switch.
    c.enable(NOW);
    c.step(
        ControlEvent::Enabled(Ok(handle(SwitchMode::RouteOverlay))),
        NOW,
    );
    c.step(ControlEvent::Done(Ok(())), NOW);
    assert!(monitor
        .step(&mut c.ctx, &params, TickEvent::Due, NOW)
        .is_empty());
    assert!(c.ctx.runtime.is_enabled);
    assert!(matches!(&c.monitor, Some(p) if p.generation != params.generation));
}
