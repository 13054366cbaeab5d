use route_tool::adapter_reconfig::{backup_adapter, AdapterReconfigStrategy};
use route_tool::adapters::{
    after_enumeration, current_route_state, dhcp_subkey, is_same_guid, list_adapters, position_of,
    query_dhcp_enabled, Enumeration, RawAdapter, RawAddress, RouteEntry, AF_INET,
};
use route_tool::addr::{ip_to_net_order, unspecified, IpAddr, Ipv4Addr};
use route_tool::encoding::to_wide;
use route_tool::error::CoreError;
use route_tool::inspector::{default_probe_ip, echo_result, WinNetInspector};
use route_tool::netsh::{
    check_netsh, enable_dhcp, ensure_dhcp, join_output, launch_error, reset_dns, run_netsh,
    set_dns, set_static_ipv4, IfaceRef, NetshCommand,
};
use route_tool::protocol::{AdapterInfo, AdapterSnapshot, BypassTarget, SwitchMode};
use route_tool::restore::{Restore, RestoreAction, RestoreReply};
use route_tool::route_overlay::build_row;
use route_tool::switch_engine::ReconcileAction;

fn raw(ip: Ipv4Addr, prefix_len: u8) -> RawAddress {
    RawAddress {
        family: AF_INET,
        raw: ip_to_net_order(ip),
        prefix_len,
    }
}

fn v4(a: u8, b: u8, c: u8, d: u8) -> IpAddr {
    IpAddr::V4(Ipv4Addr::new(a, b, c, d))
}

fn units(s: &str) -> Vec<u16> {
    s.encode_utf16().collect()
}

fn wlan() -> AdapterInfo {
    AdapterInfo {
        id: "{B0D14BA4}".to_string(),
        name: "WLAN".to_string(),
        kind: "if_type=71".to_string(),
        mac: None,
        ipv4: vec![v4(192, 168, 123, 133)],
        ipv4_prefixes: vec![24],
        gateway: vec![v4(192, 168, 123, 1)],
        dns: vec![v4(223, 5, 5, 5), v4(8, 8, 8, 8)],
        is_connected: true,
    }
}

fn target() -> BypassTarget {
    BypassTarget {
        adapter_id: "{B0D14BA4}".to_string(),
        bypass_ip: v4(192, 168, 123, 105),
        dns: None,
        subnet_mask: None,
        static_ip: None,
    }
}

fn line(c: &NetshCommand) -> String {
    c.args.join(" ")
}

fn message<T>(r: Result<T, CoreError>) -> String {
    match r {
        Ok(_) => panic!("an error was expected"),
        Err(e) => e.message(),
    }
}

#[test]
fn adapters_are_listed_without_loopback() {
    let loopback = RawAdapter {
        if_type: 24,
        adapter_name: b"{LO}".to_vec(),
        friendly_name: units("Loopback"),
        physical: vec![],
        unicast: vec![],
        dns: vec![],
        gateways: vec![],
        is_up: true,
    };
    let ethernet = RawAdapter {
        if_type: 6,
        adapter_name: b"{B0D14BA4}".to_vec(),
        friendly_name: units("以太网"),
        physical: vec![0x00, 0x1a, 0xff],
        unicast: vec![
            RawAddress {
                family: 23,
                raw: 1,
                prefix_len: 64,
            },
            raw(Ipv4Addr::new(192, 168, 2, 7), 24),
        ],
        dns: vec![raw(Ipv4Addr::new(1, 1, 1, 1), 0)],
        gateways: vec![raw(Ipv4Addr::new(192, 168, 2, 1), 0)],
        is_up: false,
    };
    let list = list_adapters(&vec![loopback, ethernet]);
    assert_eq!(list.len(), 1);
    let a = &list[0];
    assert_eq!(a.id, "{B0D14BA4}");
    assert_eq!(a.name, "以太网");
    assert_eq!(a.kind, "if_type=6");
    assert_eq!(a.mac.as_deref(), Some("00-1A-FF"));
    assert_eq!(a.ipv4, vec![v4(192, 168, 2, 7)]);
    assert_eq!(a.ipv4_prefixes, vec![24]);
    assert_eq!(a.gateway, vec![v4(192, 168, 2, 1)]);
    assert_eq!(a.dns, vec![v4(1, 1, 1, 1)]);
    assert!(!a.is_connected);
    assert_eq!(position_of(&list, "{B0D14BA4}"), Some(0));
    assert_eq!(position_of(&list, "{LO}"), None);
}

#[test]
fn bytes_that_are_not_utf8_are_replaced() {
    let odd = RawAdapter {
        if_type: 6,
        adapter_name: vec![0x7b, 0xff, 0x7d],
        friendly_name: vec![],
        physical: vec![],
        unicast: vec![],
        dns: vec![],
        gateways: vec![],
        is_up: true,
    };
    let list = list_adapters(&vec![odd]);
    assert_eq!(list[0].id, "{\u{fffd}}");
    assert_eq!(list[0].mac, None);
}

#[test]
fn buffer_grows_until_the_list_fits() {
    assert_eq!(after_enumeration(111, 0x4000), Enumeration::Retry(0x8000));
    assert_eq!(after_enumeration(0, 0x4000), Enumeration::Ready);
    assert_eq!(after_enumeration(87, 0x4000), Enumeration::Failed(87));
}

#[test]
fn default_routes_are_found_by_interface() {
    let hop = Ipv4Addr::new(192, 168, 2, 1);
    let entries = vec![
        RouteEntry {
            row: build_row(1, 1, unspecified(), 0, hop, 0),
            guid: Some("B0D14BA4-5150".to_string()),
        },
        RouteEntry {
            row: build_row(1, 1, unspecified(), 0, unspecified(), 0),
            guid: Some("FFFF".to_string()),
        },
        RouteEntry {
            row: build_row(1, 1, unspecified(), 1, hop, 0),
            guid: Some("EEEE".to_string()),
        },
    ];
    let state = current_route_state(&entries, "{b0d14ba4-5150}");
    assert!(state.default_via_bypass);
    assert_eq!(state.default_next_hops, vec![v4(192, 168, 2, 1)]);
    assert!(!current_route_state(&entries, "{ffff}").default_via_bypass);
    assert!(!current_route_state(&entries, "{eeee}").default_via_bypass);
    assert!(is_same_guid("{AB}", "ab"));
    assert!(!is_same_guid("{AB}", "abc"));
}

#[test]
fn dhcp_is_read_from_number_or_text() {
    assert_eq!(query_dhcp_enabled(Some(1), &None), Some(true));
    assert_eq!(query_dhcp_enabled(Some(0), &Some(to_wide("1"))), Some(false));
    assert_eq!(query_dhcp_enabled(None, &Some(to_wide(" 1 "))), Some(true));
    assert_eq!(query_dhcp_enabled(None, &Some(to_wide("0"))), Some(false));
    assert_eq!(query_dhcp_enabled(None, &Some(units("1"))), Some(true));
    assert_eq!(query_dhcp_enabled(None, &None), None);
    assert_eq!(
        dhcp_subkey("{X}"),
        r"SYSTEM\CurrentControlSet\Services\Tcpip\Parameters\Interfaces\{X}"
    );
}

#[test]
fn probes_need_ipv4_and_a_good_reply() {
    let inspector = WinNetInspector;
    assert!(inspector.ping_target(default_probe_ip()).is_ok());
    let six = match route_tool::ip_text::parse_ip("::1") {
        Some(ip) => ip,
        None => panic!("an address"),
    };
    assert_eq!(
        message(inspector.ping_target(six)),
        "网络操作失败：MVP 不支持 IPv6"
    );
    assert_eq!(echo_result(1, 0, 12), Some(12));
    assert_eq!(echo_result(1, 11010, 12), None);
    assert_eq!(echo_result(0, 0, 12), None);
}

#[test]
fn netsh_commands() {
    assert_eq!(
        line(&enable_dhcp("WLAN 2")),
        "interface ip set address WLAN 2 dhcp"
    );
    assert!(enable_dhcp("x").idempotent);
    assert!(ensure_dhcp("x", Some(true)).is_none());
    assert!(ensure_dhcp("x", Some(false)).is_some());
    assert!(ensure_dhcp("x", None).is_some());
    let fixed = set_static_ipv4(
        "WLAN",
        Ipv4Addr::new(192, 168, 123, 133),
        Ipv4Addr::new(255, 255, 255, 0),
        Ipv4Addr::new(192, 168, 123, 105),
    );
    assert_eq!(
        line(&fixed),
        "interface ip set address WLAN static 192.168.123.133 255.255.255.0 192.168.123.105"
    );
    assert!(!fixed.idempotent);
    let dns = set_dns(
        "WLAN",
        &vec![Ipv4Addr::new(1, 1, 1, 1), Ipv4Addr::new(8, 8, 8, 8)],
    );
    assert_eq!(dns.len(), 2);
    assert_eq!(line(&dns[0]), "interface ip set dns WLAN static 1.1.1.1");
    assert_eq!(line(&dns[1]), "interface ip add dns WLAN 8.8.8.8 index=2");
    assert!(set_dns("WLAN", &vec![]).is_empty());
    assert_eq!(line(&reset_dns("WLAN")), "interface ip set dns WLAN dhcp");
    assert_eq!(IfaceRef::new("WLAN".to_string()).name, "WLAN");
}

#[test]
fn netsh_answers() {
    assert_eq!(join_output(" a \r\n", " b "), "a b");
    assert_eq!(join_output("", " b "), "b");
    assert!(check_netsh(false, true, "whatever").is_ok());
    assert_eq!(
        message(check_netsh(false, false, "DHCP is already enabled on this interface.")),
        "网络操作失败：netsh 失败: DHCP is already enabled on this interface."
    );
    assert!(check_netsh(true, false, "DHCP is already enabled on this interface.").is_ok());
    assert!(check_netsh(true, false, "已在此接口上启用 DHCP。").is_ok());
    assert!(check_netsh(true, false, "The object is already in the state x").is_ok());
    assert!(check_netsh(true, false, "denied").is_err());
    let stdout = "  已在此接口上启用\r\n".as_bytes().to_vec();
    assert!(run_netsh(true, false, &stdout, &vec![]).is_ok());
    assert_eq!(
        message(run_netsh(false, false, &b"no ".to_vec(), &b" way".to_vec())),
        "网络操作失败：netsh 失败: no way"
    );
    assert_eq!(launch_error("gone").message(), "网络操作失败：无法启动 netsh: gone");
}

#[test]
fn reconfiguration_is_planned() {
    let s = AdapterReconfigStrategy::new();
    let list = vec![wlan()];
    match s.enable(&target(), &list) {
        Ok(plan) => {
            let lines: Vec<String> = plan.commands.iter().map(line).collect();
            assert_eq!(
                lines,
                vec![
                    "interface ip set address WLAN static 192.168.123.133 255.255.255.0 192.168.123.105",
                    "interface ip set dns WLAN static 192.168.123.105",
                ]
            );
            assert_eq!(plan.handle.mode, SwitchMode::AdapterReconfig);
            assert_eq!(plan.handle.adapter_id.as_deref(), Some("{B0D14BA4}"));
            assert!(s.is_active(&plan.handle, &list));
            assert!(!s.is_active(&plan.handle, &vec![]));
        }
        Err(e) => panic!("{}", e.message()),
    }

    let mut t = target();
    t.static_ip = Some(Ipv4Addr::new(192, 168, 123, 200));
    t.subnet_mask = Some(Ipv4Addr::new(255, 255, 0, 0));
    t.dns = Some(vec![v4(1, 1, 1, 1), v4(2, 2, 2, 2)]);
    match s.enable(&t, &list) {
        Ok(plan) => {
            let lines: Vec<String> = plan.commands.iter().map(line).collect();
            assert_eq!(
                lines,
                vec![
                    "interface ip set address WLAN static 192.168.123.200 255.255.0.0 192.168.123.105",
                    "interface ip set dns WLAN static 1.1.1.1",
                    "interface ip add dns WLAN 2.2.2.2 index=2",
                ]
            );
        }
        Err(e) => panic!("{}", e.message()),
    }

    assert_eq!(
        message(s.enable(&target(), &vec![])),
        "网络操作失败：网卡 {B0D14BA4} 不存在"
    );
    assert_eq!(
        message(s.iface_name(&list, "{X}")),
        "网络操作失败：网卡 {X} 不存在"
    );
    assert!(matches!(s.iface_name(&list, "{B0D14BA4}"), Ok(n) if n == "WLAN"));
    let mut bare = wlan();
    bare.ipv4 = vec![];
    assert_eq!(
        message(s.enable(&target(), &vec![bare])),
        "网络操作失败：网卡无 IPv4 地址，无法直改"
    );
    let mut six = wlan();
    six.ipv4 = match route_tool::ip_text::parse_ip("::1") {
        Some(ip) => vec![ip],
        None => panic!("an address"),
    };
    let ip = six.ipv4[0];
    assert_eq!(
        message(s.enable(&target(), &vec![six])),
        "网络操作失败：仅支持 IPv4"
    );
    let mut t = target();
    t.bypass_ip = ip;
    assert_eq!(
        message(s.enable(&t, &list)),
        "网络操作失败：仅支持 IPv4 旁路由地址"
    );
    assert_eq!(s.reconcile_on_startup(), ReconcileAction::NoAction);
}

fn snapshot(dhcp: Option<bool>) -> AdapterSnapshot {
    match backup_adapter(&vec![wlan()], "{B0D14BA4}", dhcp) {
        Ok(s) => s,
        Err(e) => panic!("{}", e.message()),
    }
}

#[test]
fn backup_is_restored() {
    let s = AdapterReconfigStrategy::new();
    let list = vec![wlan()];

    let dhcp = snapshot(Some(true));
    assert!(dhcp.is_dhcp_enabled);
    match s.restore_adapter(&dhcp, &list) {
        Ok(c) => {
            let lines: Vec<String> = c.iter().map(line).collect();
            assert_eq!(
                lines,
                vec![
                    "interface ip set address WLAN dhcp",
                    "interface ip set dns WLAN dhcp",
                ]
            );
        }
        Err(e) => panic!("{}", e.message()),
    }

    let mut fixed = snapshot(None);
    assert!(!fixed.is_dhcp_enabled);
    assert_eq!(fixed.static_ipv4_mask, vec![24]);
    match s.restore_adapter(&fixed, &list) {
        Ok(c) => {
            let lines: Vec<String> = c.iter().map(line).collect();
            assert_eq!(
                lines,
                vec![
                    "interface ip set address WLAN static 192.168.123.133 255.255.255.0 192.168.123.1",
                    "interface ip set dns WLAN static 223.5.5.5",
                    "interface ip add dns WLAN 8.8.8.8 index=2",
                ]
            );
        }
        Err(e) => panic!("{}", e.message()),
    }
    fixed.dns = vec![];
    match s.restore_adapter(&fixed, &list) {
        Ok(c) => assert_eq!(line(&c[1]), "interface ip set dns WLAN dhcp"),
        Err(e) => panic!("{}", e.message()),
    }
    fixed.gateway = vec![];
    assert_eq!(
        message(s.restore_adapter(&fixed, &list)),
        "网络操作失败：快照缺少网关"
    );
    fixed.static_ipv4 = vec![];
    assert_eq!(
        message(s.restore_adapter(&fixed, &list)),
        "网络操作失败：快照缺少 IPv4"
    );
    assert_eq!(
        message(s.restore_adapter(&fixed, &vec![])),
        "网络操作失败：网卡 {B0D14BA4} 已不存在"
    );
    assert_eq!(
        message(backup_adapter(&vec![], "{B0D14BA4}", None)),
        "网络操作失败：网卡 {B0D14BA4} 不存在"
    );
}

#[test]
fn restoring_removes_the_backup_last() {
    let (mut r, first) = AdapterReconfigStrategy::default().disable();
    assert!(matches!(first, RestoreAction::LoadSnapshot));
    let a = r.step(RestoreReply::Snapshot(Ok(Some(snapshot(Some(true))))));
    assert!(matches!(a, Some(RestoreAction::ListAdapters)));
    let a = r.step(RestoreReply::Adapters(Ok(vec![wlan()])));
    assert!(matches!(a, Some(RestoreAction::Run(ref c)) if c.len() == 2));
    let a = r.step(RestoreReply::Done(Err(CoreError::Network("x".to_string()))));
    assert!(matches!(a, Some(RestoreAction::ClearSnapshot)));
    let a = r.step(RestoreReply::Done(Ok(())));
    assert!(matches!(a, Some(RestoreAction::Finish(Ok(())))));
    assert!(r.step(RestoreReply::Done(Ok(()))).is_none());

    let (mut r, _) = Restore::start();
    let a = r.step(RestoreReply::Snapshot(Ok(None)));
    assert!(matches!(a, Some(RestoreAction::Finish(Ok(())))));

    let (mut r, _) = Restore::start();
    r.step(RestoreReply::Snapshot(Ok(Some(snapshot(None)))));
    let a = r.step(RestoreReply::Adapters(Err("busy".to_string())));
    assert!(matches!(a, Some(RestoreAction::ClearSnapshot)));

    let (mut r, _) = Restore::start();
    let e = CoreError::Persistence("p".to_string());
    let a = r.step(RestoreReply::Snapshot(Err(e)));
    assert!(matches!(a, Some(RestoreAction::Finish(Err(_)))));
}
