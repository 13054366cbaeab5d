use route_tool::addr::{is_valid_subnet_mask, mask_of_prefix, IpAddr, Ipv4Addr};
use route_tool::display::{
    adapter_display_names, format_ips, last_check_text, selected_index, show_health, show_latency,
    update_adapter_info_display, FallbackWatch,
};
use route_tool::forms::{
    apply_config_to_ui, build_config_from_ui, parse_dns_list, restore_default, ConfigForm,
};
use route_tool::icon::{
    arch_dir, compiler_path, drive, find_rc_exe, is_version_le, read_version, sdk_roots, tools_dir,
    Candidate,
};
use route_tool::notify::{fallback_body, show_toast, xml_escape, FALLBACK_BODY, FALLBACK_TITLE};
use route_tool::protocol::{
    AdapterInfo, AppConfig, HealthStatus, RuntimeState, SwitchMode, Timestamp,
};
use route_tool::service_host::{on_signal, parse_command, Command, ServiceSignal};
use route_tool::tray::{
    icon_file, toggle_label, tooltip, TrayAction, TrayMenu, TrayShown, TrayState,
};
use route_tool::ui_state::{
    after_connect, failure_text, ConnectStep, UiAction, UiAnswer, UiState, UserPhase, UserRequest,
    UserTask, NOT_CONNECTED,
};

fn v4(a: u8, b: u8, c: u8, d: u8) -> IpAddr {
    IpAddr::V4(Ipv4Addr::new(a, b, c, d))
}

fn six() -> IpAddr {
    match route_tool::ip_text::parse_ip("fe80::1") {
        Some(ip) => ip,
        None => panic!("an address"),
    }
}

fn form() -> ConfigForm {
    ConfigForm {
        bypass_ip: "192.168.2.1".to_string(),
        static_ip: " 192.168.2.100 ".to_string(),
        mask: String::new(),
        dns: "1.1.1.1, 8.8.8.8；2.2.2.2".to_string(),
        mode_index: 1,
        interval_secs: 0,
        failure_threshold: 4,
        auto_reenable: true,
        notifications: false,
    }
}

fn adapter(id: &str, connected: bool) -> AdapterInfo {
    AdapterInfo {
        id: id.to_string(),
        name: format!("net {id}"),
        kind: "if_type=6".to_string(),
        mac: None,
        ipv4: vec![six(), v4(10, 0, 0, 7), v4(10, 0, 0, 8), v4(10, 0, 0, 9)],
        ipv4_prefixes: vec![26],
        gateway: vec![v4(10, 0, 0, 1)],
        dns: vec![],
        is_connected: connected,
    }
}

#[test]
fn name_servers_are_read() {
    assert_eq!(parse_dns_list(" ,; \t"), Ok(None));
    assert_eq!(
        parse_dns_list("1.1.1.1，8.8.8.8;::1"),
        Ok(Some(vec![
            v4(1, 1, 1, 1),
            v4(8, 8, 8, 8),
            match route_tool::ip_text::parse_ip("::1") {
                Some(ip) => ip,
                None => panic!("an address"),
            }
        ]))
    );
    assert_eq!(
        parse_dns_list("1.1.1.1 bad worse"),
        Err("DNS 地址无效: bad".to_string())
    );
}

fn built(f: &ConfigForm) -> AppConfig {
    match build_config_from_ui(f) {
        Ok(c) => c,
        Err(e) => panic!("{e}"),
    }
}

fn refused(f: &ConfigForm) -> String {
    match build_config_from_ui(f) {
        Ok(_) => panic!("an error was expected"),
        Err(e) => e,
    }
}

#[test]
fn form_is_read() {
    let c = built(&form());
    assert_eq!(c.adapter_id, "");
    assert_eq!(c.bypass_ip, v4(192, 168, 2, 1));
    assert_eq!(c.static_ip, Some(Ipv4Addr::new(192, 168, 2, 100)));
    assert_eq!(c.subnet_mask, Some(Ipv4Addr::new(255, 255, 255, 0)));
    assert_eq!(
        c.dns_override,
        Some(vec![v4(1, 1, 1, 1), v4(8, 8, 8, 8), v4(2, 2, 2, 2)])
    );
    assert_eq!(c.switch_mode, SwitchMode::AdapterReconfig);
    assert_eq!(c.health_check_interval_secs, 1);
    assert_eq!(c.failure_threshold, 4);
    assert!(c.auto_reenable_after_recovery);
    assert!(!c.notifications_enabled);

    let mut f = form();
    f.bypass_ip = "192.168.2".to_string();
    assert_eq!(refused(&f), "旁路由 IP 无效");
    let mut f = form();
    f.static_ip = "x".to_string();
    assert_eq!(refused(&f), "网卡静态 IP 无效（如 192.168.2.100）");
    let mut f = form();
    f.mask = "x".to_string();
    assert_eq!(refused(&f), "子网掩码无效（如 255.255.255.0）");
    let mut f = form();
    f.dns = "x".to_string();
    assert_eq!(refused(&f), "DNS 地址无效: x");
    let mut f = form();
    f.mode_index = 2;
    assert_eq!(built(&f).switch_mode, SwitchMode::RouteOverlay);
}

#[test]
fn form_shows_what_it_was_read_as() {
    let c = built(&form());
    let shown = apply_config_to_ui(&c);
    assert_eq!(shown.bypass_ip, "192.168.2.1");
    assert_eq!(shown.static_ip, "192.168.2.100");
    assert_eq!(shown.mask, "255.255.255.0");
    assert_eq!(shown.dns, "1.1.1.1, 8.8.8.8, 2.2.2.2");
    assert_eq!(shown.mode_index, 1);
    assert_eq!(shown.interval_secs, 1);
    let again = built(&shown);
    assert_eq!(again.dns_override, c.dns_override);
    assert_eq!(again.static_ip, c.static_ip);
    assert_eq!(again.bypass_ip, c.bypass_ip);

    let mut six_router = c.clone();
    six_router.bypass_ip = six();
    assert_eq!(built(&apply_config_to_ui(&six_router)).bypass_ip, six());

    let plain = apply_config_to_ui(&AppConfig::default());
    assert_eq!(plain.mask, "255.255.255.0");
    assert_eq!(plain.static_ip, "");
    assert_eq!(plain.dns, "");
    assert_eq!(plain.mode_index, 0);

    let mut big = AppConfig::default();
    big.failure_threshold = u32::MAX;
    assert_eq!(apply_config_to_ui(&big).failure_threshold, -1);

    let mut mine = AppConfig::default();
    mine.adapter_id = "{A}".to_string();
    mine.failure_threshold = 9;
    let reset = restore_default(&mine);
    assert_eq!(reset.adapter_id, "{A}");
    assert_eq!(reset.failure_threshold, 3);
}

#[test]
fn adapters_are_shown() {
    let list = vec![adapter("a", true), adapter("b", false)];
    assert_eq!(
        adapter_display_names(&list),
        vec!["net a", "net b（未连接）"]
    );
    assert_eq!(selected_index(&list, "b"), 1);
    assert_eq!(selected_index(&list, "c"), -1);
    assert_eq!(format_ips(&list[0].ipv4), "10.0.0.7, 10.0.0.8");
    assert_eq!(format_ips(&vec![six()]), "");
    let d = update_adapter_info_display(&list, "a");
    assert_eq!(d.ip, "10.0.0.7, 10.0.0.8");
    assert_eq!(d.mask, "255.255.255.192");
    assert_eq!(d.gateway, "10.0.0.1");
    assert_eq!(d.dns, "--");
    let d = update_adapter_info_display(&list, "c");
    assert_eq!(d.mask, "--");
    for (prefix, last) in [(24, 0), (25, 128), (30, 252), (32, 255)] {
        let mut a = adapter("p", true);
        a.ipv4_prefixes = vec![prefix];
        let d = update_adapter_info_display(&vec![a], "p");
        assert_eq!(d.mask, format!("255.255.255.{last}"));
    }
    let mut a = adapter("p", true);
    a.ipv4 = vec![IpAddr::V4(Ipv4Addr::new(10, 1, 2, 3))];
    a.ipv4_prefixes = vec![16];
    a.gateway = vec![IpAddr::V4(Ipv4Addr::new(10, 1, 0, 1))];
    let d = update_adapter_info_display(&vec![a], "p");
    assert_eq!(d.ip, "10.1.2.3");
    assert_eq!(d.mask, "255.255.0.0");
    assert_eq!(d.gateway, "10.1.0.1");
    assert_eq!(d.dns, "--");
    for (prefix, mask) in [
        (0, "0.0.0.0"),
        (1, "128.0.0.0"),
        (9, "255.128.0.0"),
        (20, "255.255.240.0"),
        (33, "--"),
        (255, "--"),
    ] {
        let mut a = adapter("p", true);
        a.ipv4_prefixes = vec![prefix];
        assert_eq!(update_adapter_info_display(&vec![a], "p").mask, mask);
    }
    for prefix in 0..=32 {
        assert!(is_valid_subnet_mask(mask_of_prefix(prefix)));
    }
}

#[test]
fn health_is_shown() {
    let d = show_health(HealthStatus::Degraded {
        consecutive_failures: 2,
    });
    assert_eq!(d.text, "探测中（失败 2 次）");
    assert_eq!(d.tray, TrayState::Bypass);
    assert!(!d.is_fallback);
    let d = show_health(HealthStatus::Fallback);
    assert_eq!(d.text, "异常已自动回退");
    assert_eq!(d.tray, TrayState::Fallback);
    assert!(d.is_fallback);
    assert_eq!(show_health(HealthStatus::Idle).text, "直连（未启用）");
    assert_eq!(show_health(HealthStatus::Idle).tray, TrayState::Direct);
    assert_eq!(show_health(HealthStatus::Healthy).text, "旁路由生效");
    assert_eq!(show_health(HealthStatus::Recovered).text, "检测恢复");
    assert_eq!(show_latency(None), -1);
    assert_eq!(show_latency(Some(12)), 12);
}

#[test]
fn age_is_shown() {
    let at = |secs: i64, nanos: u32| Timestamp { secs, nanos };
    assert_eq!(last_check_text(at(0, 5), at(100, 0)), "--");
    assert_eq!(last_check_text(at(100, 0), at(159, 0)), "刚刚");
    assert_eq!(last_check_text(at(100, 1), at(160, 0)), "刚刚");
    assert_eq!(last_check_text(at(100, 0), at(160, 0)), "1分钟前");
    assert_eq!(last_check_text(at(100, 0), at(100 + 3600, 0)), "60分钟前");
    assert_eq!(last_check_text(at(100, 0), at(50, 0)), "刚刚");
    // A leap second counts where the other moment is later in the day.
    assert_eq!(last_check_text(at(119, 1_500_000_000), at(178, 500_000_000)), "刚刚");
    assert_eq!(last_check_text(at(119, 1_500_000_000), at(179, 500_000_000)), "1分钟前");
    assert_eq!(last_check_text(at(119, 1_500_000_000), at(119, 1_999_999_999)), "刚刚");
    let day = 86_400;
    assert_eq!(last_check_text(at(day - 10, 0), at(day + 49, 1_999_999_999)), "刚刚");
    assert_eq!(last_check_text(at(day - 10, 0), at(day + 50, 1_000_000_000)), "1分钟前");
    assert_eq!(last_check_text(at(119, 0), at(-5, 1_000_000_000)), "刚刚");
    assert_eq!(last_check_text(at(1, 0), at(i64::MAX, 0)), "153722867280912930分钟前");
    assert_eq!(last_check_text(at(1, 0), at(i64::MIN, 0)), "刚刚");
}

#[test]
fn fallback_is_announced_once() {
    let mut w = FallbackWatch::new();
    assert!(w.observe(true, true));
    assert!(!w.observe(true, true));
    assert!(!w.observe(false, true));
    assert!(!w.observe(true, false));
    assert!(!w.observe(true, true));
}

#[test]
fn tray_follows_the_state() {
    let mut t = TrayShown::initial();
    assert!(!t.update_state(TrayState::Direct, false));
    assert!(t.update_state(TrayState::Bypass, true));
    assert!(!t.update_state(TrayState::Bypass, true));
    assert_eq!(tooltip(TrayState::Direct), "RouteTool - 直连");
    assert_eq!(tooltip(TrayState::Bypass), "RouteTool - 旁路由生效");
    assert_eq!(icon_file(TrayState::Fallback), "tray_fallback.rgba");
    assert_eq!(toggle_label(true), "禁用旁路由");
    assert_eq!(toggle_label(false), "启用旁路由");
    let menu = TrayMenu {
        toggle_id: "1".to_string(),
        settings_id: "2".to_string(),
        logs_id: "3".to_string(),
        quit_id: "4".to_string(),
    };
    let id = |s: &str| Some(s.to_string());
    assert_eq!(menu.poll_event(&id("1")), Some(TrayAction::Toggle));
    assert_eq!(menu.poll_event(&id("2")), Some(TrayAction::OpenSettings));
    assert_eq!(menu.poll_event(&id("3")), Some(TrayAction::OpenLogs));
    assert_eq!(menu.poll_event(&id("4")), Some(TrayAction::Quit));
    assert_eq!(menu.poll_event(&id("5")), None);
    assert_eq!(menu.poll_event(&None), None);
}

#[test]
fn notification_text_is_escaped() {
    assert_eq!(xml_escape("a<b>&\"c\""), "a&lt;b&gt;&amp;&quot;c&quot;");
    let script = show_toast(FALLBACK_TITLE, FALLBACK_BODY);
    assert!(script.contains("<text id=\"1\">旁路由异常</text><text id=\"2\">旁路由异常，已自动切回直连</text>"));
    assert_eq!(fallback_body("12:34:56"), "旁路由异常，已自动切回直连（12:34:56）");
    assert!(show_toast("<", "").contains("<text id=\"1\">&lt;</text>"));
}

#[test]
fn window_state_is_kept() {
    let mut s = UiState::new();
    assert_eq!(s.service_text(), "服务断开");
    let rs = Some(RuntimeState::default_at(Timestamp { secs: 1, nanos: 0 }));
    assert!(!s.resync(&rs, Some(AppConfig::default()), None));
    assert!(!s.connected);
    assert!(s.resync(&rs, Some(AppConfig::default()), Some(vec![adapter("a", true)])));
    assert_eq!(s.service_text(), "服务运行中");
    assert!(s.select_adapter(0));
    assert_eq!(s.config.adapter_id, "a");
    assert!(!s.select_adapter(1));
    assert!(!s.select_adapter(-1));
    assert!(!s.refresh_adapters(vec![]));
    assert_eq!(s.adapters.len(), 1);
    assert!(s.refresh_adapters(vec![adapter("b", true), adapter("c", true)]));
    assert_eq!(s.adapters.len(), 2);
    assert_eq!(after_connect(1, true), ConnectStep::Connected);
    assert_eq!(after_connect(9, false), ConnectStep::Retry { pause_ms: 500 });
    assert_eq!(after_connect(10, false), ConnectStep::GiveUp);
    assert_eq!(failure_text(UserTask::Save, "x"), "保存失败: x");
    assert_eq!(failure_text(UserTask::SelectAdapter, "x"), "保存网卡选择失败: x");
    assert_eq!(failure_text(UserTask::RestoreDefault, "x"), "恢复默认失败: x");
    assert_eq!(failure_text(UserTask::Toggle, "x"), "x");
}

#[test]
fn command_line_and_signals() {
    let args = |a: &[&str]| -> Vec<String> { a.iter().map(|s| s.to_string()).collect() };
    assert_eq!(parse_command(&args(&["x"])), Command::Service);
    assert_eq!(parse_command(&args(&[])), Command::Service);
    assert_eq!(
        parse_command(&args(&["x", "--install-service"])),
        Command::Install
    );
    assert_eq!(
        parse_command(&args(&["x", "--uninstall-service"])),
        Command::Uninstall
    );
    assert_eq!(parse_command(&args(&["x", "--console"])), Command::Console);
    assert_eq!(parse_command(&args(&["x", "y"])), Command::Service);
    assert!(on_signal(ServiceSignal::Stop).stop);
    assert!(on_signal(ServiceSignal::Shutdown).stop);
    assert!(on_signal(ServiceSignal::Interrogate).known);
    assert!(!on_signal(ServiceSignal::Other).known);
}

#[test]
fn resource_compiler_is_found() {
    let dirs = vec![Some(r"C:\PF".to_string()), None, Some(String::new())];
    assert_eq!(
        sdk_roots(&dirs, &Some(r"D:\Windows".to_string())),
        vec![
            r"C:\PF\Windows Kits",
            r"D:\Program Files (x86)\Windows Kits",
            r"D:\Program Files\Windows Kits",
        ]
    );
    assert_eq!(drive(""), "C:");
    assert_eq!(drive("é"), "é");
    assert_eq!(drive("aé"), "C:");
    assert_eq!(arch_dir(&Some("x86_64".to_string())), "x64");
    assert_eq!(arch_dir(&Some("x86".to_string())), "x86");
    assert_eq!(
        compiler_path(&tools_dir(r"C:\K", "10"), "x64"),
        r"C:\K\10\bin\x64\rc.exe"
    );
    assert_eq!(read_version(&Some("bin".to_string())), "");
    assert_eq!(read_version(&Some("10.0.1".to_string())), "10.0.1");
    let c = |v: &str, p: &str| Candidate {
        version: v.to_string(),
        path: p.to_string(),
    };
    let found = vec![c("", "old"), c("10.0.2", "b"), c("10.0.1", "a"), c("10.0.2", "c")];
    assert_eq!(find_rc_exe(&found), Some(1));
    assert_eq!(find_rc_exe(&vec![]), None);
    let found = vec![c("10.0.9600.0", "old"), c("10.0.26100.0", "new")];
    assert_eq!(find_rc_exe(&found), Some(1));
    let found = vec![c("10.0.26100.0", "new"), c("10.0.9600.0", "old"), c("", "none")];
    assert_eq!(find_rc_exe(&found), Some(0));
    // Numbers of any size, leading zeros, longer versions, parts that are no numbers.
    assert!(is_version_le("9", "123456789012345678901234567890"));
    assert!(!is_version_le("123456789012345678901234567890", "9"));
    assert!(is_version_le("10.0", "010.00"));
    assert!(is_version_le("010.00", "10.0"));
    assert!(is_version_le("10.0", "10.0.1"));
    assert!(!is_version_le("10.0.1", "10.0"));
    assert!(is_version_le("", "0"));
    assert!(!is_version_le("0", ""));
    assert!(is_version_le("10.a", "10.b"));
    assert!(!is_version_le("10.b", "10.a"));
    assert!(is_version_le("10.9", "10.x"));
    assert!(!is_version_le("10.x", "10.9"));
}

fn named(actions: &[UiAction]) -> Vec<String> {
    actions
        .iter()
        .map(|a| match a {
            UiAction::Send(c) => format!("send {} {}", c.adapter_id, c.failure_threshold),
            UiAction::Message(text) => format!("message {text}"),
            UiAction::ShowStatus(rs) => format!("status {}", rs.last_updated.secs),
            other => format!("{other:?}"),
        })
        .collect()
}

fn state_at(secs: i64) -> RuntimeState {
    RuntimeState::default_at(Timestamp { secs, nanos: 0 })
}

#[test]
fn first_connection_fills_the_window() {
    let mut s = UiState::new();
    assert_eq!(named(&s.look()), vec!["ShowService", "Connect"]);
    let actions = s.start(None, None);
    assert_eq!(named(&actions), vec!["ShowAdapter", "ShowService"]);
    assert!(s.connected);
    let mut config = AppConfig::default();
    config.failure_threshold = 9;
    let actions = s.start(Some(config), Some(vec![adapter("a", true)]));
    assert_eq!(named(&actions), vec!["FillForm", "ShowAdapters", "ShowService"]);
    assert_eq!(s.config.failure_threshold, 9);
    assert_eq!(s.adapters.len(), 1);
    assert_eq!(named(&s.look()), vec!["AskStatus"]);
}

#[test]
fn lost_connection_is_made_anew() {
    let mut s = UiState::new();
    s.start(None, None);
    // Without adapters they are asked for before the state is shown.
    let actions = s.step(UiAnswer::Status(Some(state_at(3))));
    assert_eq!(named(&actions), vec!["ShowService", "AskAdapters", "status 3"]);
    assert!(s.step(UiAnswer::Adapters(None)).is_empty());
    assert!(s.step(UiAnswer::Adapters(Some(vec![]))).is_empty());
    let actions = s.step(UiAnswer::Adapters(Some(vec![adapter("a", true)])));
    assert_eq!(named(&actions), vec!["ShowAdapters"]);
    let actions = s.step(UiAnswer::Status(Some(state_at(4))));
    assert_eq!(named(&actions), vec!["ShowService", "status 4"]);

    let actions = s.step(UiAnswer::Status(None));
    assert_eq!(named(&actions), vec!["ShowService", "Connect"]);
    assert!(s.step(UiAnswer::Connected(false)).is_empty());
    assert!(s.connected);
    assert_eq!(named(&s.step(UiAnswer::Connected(true))), vec!["AskAll"]);
    let actions = s.step(UiAnswer::All(Some(state_at(5)), None, Some(vec![])));
    assert_eq!(named(&actions), vec!["Disconnect", "status 5"]);
    assert!(!s.connected);
    assert_eq!(s.adapters.len(), 1);
    let actions = s.step(UiAnswer::All(None, Some(AppConfig::default()), Some(vec![])));
    assert_eq!(named(&actions), vec!["Disconnect"]);
    let mut config = AppConfig::default();
    config.failure_threshold = 8;
    let list = vec![adapter("b", true), adapter("c", true)];
    let actions = s.step(UiAnswer::All(Some(state_at(6)), Some(config), Some(list)));
    assert_eq!(named(&actions), vec!["FillForm", "ShowAdapters", "status 6"]);
    assert!(s.connected);
    assert_eq!(s.config.failure_threshold, 8);
    assert_eq!(s.adapters.len(), 2);
}

#[test]
fn only_accepted_configurations_are_kept() {
    let form = || {
        let mut c = AppConfig::default();
        c.failure_threshold = 7;
        Ok(c)
    };
    // Without a connection.
    let mut s = UiState::new();
    s.adapters = vec![adapter("a", true)];
    let (work, actions) = s.request(UserRequest::Save(form()));
    assert_eq!(work.phase, UserPhase::Finished);
    assert_eq!(named(&actions), vec![format!("message 保存失败: {NOT_CONNECTED}")]);
    let (_, actions) = s.request(UserRequest::RestoreDefault);
    assert_eq!(named(&actions), vec![format!("message 恢复默认失败: {NOT_CONNECTED}")]);
    let (_, actions) = s.request(UserRequest::Toggle(form(), true));
    assert_eq!(named(&actions), vec![format!("message {NOT_CONNECTED}")]);
    let (_, actions) = s.request(UserRequest::SelectAdapter(0));
    assert!(actions.is_empty());
    assert_eq!(s.config.adapter_id, "a");

    s.connected = true;
    // A form that cannot be read.
    let (_, actions) = s.request(UserRequest::Save(Err("bad".to_string())));
    assert_eq!(named(&actions), vec!["message bad"]);
    let (_, actions) = s.request(UserRequest::Toggle(Err("bad".to_string()), false));
    assert_eq!(named(&actions), vec!["message bad"]);

    // Saving, refused and accepted.
    let (mut work, actions) = s.request(UserRequest::Save(form()));
    assert_eq!(named(&actions), vec!["send a 7"]);
    let actions = s.answer(&mut work, Err("no".to_string()));
    assert_eq!(named(&actions), vec!["message 保存失败: no"]);
    assert_eq!(s.config.failure_threshold, 3);
    assert!(s.answer(&mut work, Ok(())).is_empty());
    let (mut work, _) = s.request(UserRequest::Save(form()));
    assert_eq!(named(&s.answer(&mut work, Ok(()))), vec!["message "]);
    assert_eq!(s.config.failure_threshold, 7);
    assert_eq!(s.config.adapter_id, "a");

    // The initial configuration.
    let (mut work, actions) = s.request(UserRequest::RestoreDefault);
    assert_eq!(named(&actions), vec!["send a 3"]);
    assert_eq!(
        named(&s.answer(&mut work, Ok(()))),
        vec!["FillForm", "message 已恢复默认配置"]
    );
    assert_eq!(s.config.failure_threshold, 3);

    // Selecting an adapter.
    s.adapters.push(adapter("b", true));
    let (mut work, actions) = s.request(UserRequest::SelectAdapter(1));
    assert_eq!(named(&actions), vec!["send b 3"]);
    assert_eq!(named(&s.answer(&mut work, Ok(()))), vec!["ShowAdapter"]);
    let (mut work, _) = s.request(UserRequest::SelectAdapter(0));
    assert_eq!(
        named(&s.answer(&mut work, Err("no".to_string()))),
        vec!["message 保存网卡选择失败: no"]
    );
    assert!(s.request(UserRequest::SelectAdapter(2)).1.is_empty());
    assert!(s.request(UserRequest::SelectAdapter(-1)).1.is_empty());
}

#[test]
fn switching_sends_the_configuration_first() {
    let mut s = UiState::new();
    s.start(None, None);
    let mut c = AppConfig::default();
    c.failure_threshold = 7;
    let (mut work, actions) = s.request(UserRequest::Toggle(Ok(c.clone()), false));
    assert_eq!(named(&actions), vec!["send  7"]);
    assert_eq!(named(&s.answer(&mut work, Ok(()))), vec!["Enable"]);
    assert_eq!(s.config.failure_threshold, 3);
    assert_eq!(named(&s.answer(&mut work, Ok(()))), vec!["AskAdapters"]);
    assert_eq!(s.config.failure_threshold, 7);

    c.failure_threshold = 6;
    let (mut work, _) = s.request(UserRequest::Toggle(Ok(c.clone()), false));
    assert_eq!(
        named(&s.answer(&mut work, Err("no".to_string()))),
        vec!["message no"]
    );
    let (mut work, actions) = s.request(UserRequest::Toggle(Ok(c), true));
    assert_eq!(named(&actions), vec!["Disable"]);
    assert_eq!(s.config.failure_threshold, 7);
    assert_eq!(named(&s.answer(&mut work, Ok(()))), vec!["AskAdapters"]);
    assert_eq!(s.config.failure_threshold, 6);
}
