use route_tool::addr::{ipv4_from_net_order, unspecified, upper_half, IpAddr, Ipv4Addr};
use route_tool::error::CoreError;
use route_tool::protocol::{BypassTarget, HandleRoute, SwitchHandle, SwitchMode};
use route_tool::route_overlay::{
    build_row, cleanup_code, cleanup_routes_via, parse_v4_prefix, scan_overlay_rows, scan_overlay_rows_raw,
    OverlayAction, OverlayEnable, OverlayReply, RouteOverlayStrategy, RouteRow, EXTRA_PREFIX,
    MAIN_PREFIX,
};
use route_tool::switch_engine::{ReconcileAction, ROUTE_METRIC};

fn router() -> Ipv4Addr {
    Ipv4Addr::new(192, 168, 123, 105)
}

fn target(ip: IpAddr) -> BypassTarget {
    BypassTarget {
        adapter_id: "guid".to_string(),
        bypass_ip: ip,
        dns: None,
        subnet_mask: None,
        static_ip: None,
    }
}

#[test]
fn build_row_uses_infinite_lifetime() {
    let row = build_row(1, 1, unspecified(), 1, Ipv4Addr::new(192, 168, 1, 1), 5);
    assert_eq!(row.valid_lifetime, u32::MAX);
    assert_eq!(row.preferred_lifetime, u32::MAX);
}

#[test]
fn build_row_roundtrips_addresses() {
    let dest = Ipv4Addr::new(128, 0, 0, 0);
    let next_hop = Ipv4Addr::new(192, 168, 123, 105);
    let row = build_row(1, 1, dest, 1, next_hop, ROUTE_METRIC);
    assert_eq!(ipv4_from_net_order(row.destination), dest);
    assert_eq!(ipv4_from_net_order(row.next_hop), next_hop);
    assert_eq!(row.prefix_len, 1);
    assert_eq!(row.protocol, 3);
    assert_eq!(row.metric, 5);
}

#[test]
fn prefixes_are_read() {
    assert_eq!(parse_v4_prefix(MAIN_PREFIX), Some((unspecified(), 1)));
    assert_eq!(parse_v4_prefix(EXTRA_PREFIX), Some((upper_half(), 1)));
    assert_eq!(
        parse_v4_prefix("10.1.2.3/32"),
        Some((Ipv4Addr::new(10, 1, 2, 3), 32))
    );
    assert_eq!(parse_v4_prefix("10.1.2.3"), None);
    assert_eq!(parse_v4_prefix("10.1.2.3/256"), None);
    assert_eq!(parse_v4_prefix("10.1.2/8"), None);
    assert_eq!(parse_v4_prefix("10.1.2.3/"), None);
}

/// Runs enabling against a list of codes for the creations and deletions.
fn run(codes: &[u32], resolve: OverlayReply) -> (Vec<String>, Result<SwitchHandle, CoreError>) {
    let strategy = RouteOverlayStrategy::new();
    let (mut machine, mut action): (OverlayEnable, OverlayAction) =
        match strategy.enable(&target(IpAddr::V4(router()))) {
            Ok(x) => x,
            Err(_) => panic!("an IPv4 router is accepted"),
        };
    let mut log = Vec::new();
    let mut next = 0;
    loop {
        let reply = match action {
            OverlayAction::ResolveInterface(ip) => {
                assert_eq!(ip, router());
                log.push("resolve".to_string());
                resolve
            }
            OverlayAction::Cleanup(ip) => {
                assert_eq!(ip, router());
                log.push("cleanup".to_string());
                OverlayReply::Code(0)
            }
            OverlayAction::Create(row) => {
                assert_eq!(row.if_index, 7);
                assert_eq!(row.if_luid, 9);
                log.push(format!("create {}", ipv4_from_net_order(row.destination).a));
                next += 1;
                OverlayReply::Code(codes[next - 1])
            }
            OverlayAction::Delete(row) => {
                log.push(format!("delete {}", ipv4_from_net_order(row.destination).a));
                next += 1;
                OverlayReply::Code(codes[next - 1])
            }
            OverlayAction::Finish(r) => return (log, r),
        };
        action = match machine.step(reply) {
            Some(a) => a,
            None => panic!("every answer suits"),
        };
    }
}

#[test]
fn enabling_creates_both_routes() {
    let (log, r) = run(&[0, 0], OverlayReply::Interface(7, 9));
    assert_eq!(log, vec!["resolve", "cleanup", "create 0", "create 128"]);
    match r {
        Ok(h) => {
            assert_eq!(
                h,
                SwitchHandle {
                    mode: SwitchMode::RouteOverlay,
                    if_index: Some(7),
                    if_luid: Some(9),
                    destination_prefix: Some("0.0.0.0/1".to_string()),
                    next_hop: Some(IpAddr::V4(router())),
                    adapter_id: None,
                    extra_routes: vec![HandleRoute {
                        destination_prefix: "128.0.0.0/1".to_string(),
                        if_index: 7,
                        if_luid: 9,
                    }],
                }
            );
            // What was created is what disabling deletes.
            assert_eq!(RouteOverlayStrategy::default().metric, 5);
            let plan = match RouteOverlayStrategy::new().disable(&h) {
                Ok(p) => p,
                Err(_) => panic!("the handle is complete"),
            };
            assert_eq!(plan.main, build_row(9, 7, unspecified(), 1, router(), 0));
            assert_eq!(
                plan.extras,
                vec![build_row(9, 7, upper_half(), 1, router(), 0)]
            );
        }
        Err(e) => panic!("{}", e.message()),
    }
}

#[test]
fn leftover_route_is_replaced() {
    let (log, r) = run(&[5010, 0, 0, 0], OverlayReply::Interface(7, 9));
    assert_eq!(
        log,
        vec!["resolve", "cleanup", "create 0", "delete 0", "create 0", "create 128"]
    );
    assert!(r.is_ok());
}

#[test]
fn half_an_overlay_is_removed() {
    let (log, r) = run(&[0, 87, 1168, 87], OverlayReply::Interface(7, 9));
    assert_eq!(
        log,
        vec![
            "resolve", "cleanup", "create 0", "create 128", "delete 128", "create 128", "cleanup"
        ]
    );
    match r {
        Ok(_) => panic!("half an overlay is no success"),
        Err(e) => assert_eq!(
            e.message(),
            "网络操作失败：CreateIpForwardEntry2 失败: 0x57（Windows 错误码 87）"
        ),
    }
}

#[test]
fn unreachable_router_is_reported() {
    let (log, r) = run(&[], OverlayReply::Code(1231));
    assert_eq!(log, vec!["resolve"]);
    match r {
        Ok(_) => panic!("nothing reaches the router"),
        Err(e) => assert_eq!(
            e.message(),
            "网络操作失败：找不到到 192.168.123.105 的路由（旁路由地址不可达？）: 0x4cf"
        ),
    }
}

#[test]
fn only_ipv4_routers_are_accepted() {
    let ip = match route_tool::ip_text::parse_ip("fe80::1") {
        Some(ip) => ip,
        None => panic!("an address"),
    };
    match RouteOverlayStrategy::new().enable(&target(ip)) {
        Ok(_) => panic!("only IPv4"),
        Err(e) => assert_eq!(e.message(), "网络操作失败：仅支持 IPv4 旁路由地址"),
    }
}

#[test]
fn incomplete_handles_are_refused() {
    let s = RouteOverlayStrategy::new();
    let mut h = SwitchHandle {
        mode: SwitchMode::RouteOverlay,
        if_index: None,
        if_luid: None,
        destination_prefix: None,
        next_hop: Some(IpAddr::V4(router())),
        adapter_id: None,
        extra_routes: vec![],
    };
    match s.disable(&h) {
        Ok(_) => panic!("no interface"),
        Err(e) => assert_eq!(e.message(), "句柄缺少路由条目信息"),
    }
    h.if_luid = Some(3);
    match s.disable(&h) {
        Ok(p) => assert_eq!(p.main, build_row(3, 0, unspecified(), 1, router(), 0)),
        Err(e) => panic!("{}", e.message()),
    }
    h.next_hop = route_tool::ip_text::parse_ip("::1");
    match s.disable(&h) {
        Ok(_) => panic!("only IPv4"),
        Err(e) => assert_eq!(e.message(), "句柄含非 IPv4 下一跳"),
    }
    assert!(s.disabled(0).is_ok());
    match s.disabled(2) {
        Ok(_) => panic!("the deletion failed"),
        Err(e) => assert_eq!(e.message(), "网络操作失败：DeleteIpForwardEntry2 失败: 0x2"),
    }
    assert_eq!(s.reconcile_on_startup(), ReconcileAction::NoAction);
}

fn table() -> Vec<RouteRow> {
    let mut foreign = build_row(9, 7, unspecified(), 1, router(), 5);
    foreign.protocol = 2;
    let mut expired = build_row(9, 7, unspecified(), 1, router(), 5);
    expired.valid_lifetime = 0;
    let swapped = build_row(9, 7, unspecified(), 0, Ipv4Addr::new(105, 123, 168, 192), 5);
    vec![
        foreign,
        build_row(9, 7, Ipv4Addr::new(10, 0, 0, 0), 8, router(), 5),
        expired,
        build_row(9, 7, unspecified(), 1, router(), 5),
        build_row(9, 7, upper_half(), 1, router(), 5),
        swapped,
        build_row(9, 7, unspecified(), 1, Ipv4Addr::new(10, 0, 0, 1), 5),
    ]
}

#[test]
fn scan_finds_our_routes_in_either_byte_order() {
    let rows = table();
    assert_eq!(scan_overlay_rows_raw(&rows, router()), vec![2, 3, 4, 5]);
    let found = scan_overlay_rows(&rows, router());
    assert_eq!(found.len(), 4);
    assert_eq!(found[2].prefix, upper_half());
    assert_eq!(cleanup_routes_via(&vec![0, 5, 0]), 2);
    assert_eq!(cleanup_code(&vec![0, 5, 7]), 5);
    assert_eq!(cleanup_code(&vec![0, 0]), 0);
    assert_eq!(cleanup_code(&vec![]), 0);
}

#[test]
fn overlay_in_effect_is_taken_over() {
    let s = RouteOverlayStrategy::new();
    let rows = table();
    let h = match s.existing_handle_for(&rows, &vec![7], router()) {
        Some(h) => h,
        None => panic!("both routes are there"),
    };
    assert_eq!(h.if_index, Some(7));
    assert!(s.is_active(&h, &rows, &vec![7]));
    assert!(!s.is_active(&h, &rows, &vec![8]));
    assert!(s.existing_handle_for(&rows, &vec![8], router()).is_none());
    // Without the upper half there is no overlay.
    let lower: Vec<RouteRow> = rows.iter().take(4).copied().collect();
    assert!(s.existing_handle_for(&lower, &vec![7], router()).is_none());
    assert!(!s.is_active(&h, &lower, &vec![7]));
    // A row that has expired does not count.
    let expired: Vec<RouteRow> = vec![rows[2], rows[4]];
    assert!(!s.is_active(&h, &expired, &vec![7]));
}

#[test]
fn overlay_covers_the_address_space() {
    let (lower, upper) = (
        build_row(9, 7, unspecified(), 1, router(), ROUTE_METRIC),
        build_row(9, 7, upper_half(), 1, router(), ROUTE_METRIC),
    );
    for (a, row) in [(0, lower), (127, lower), (128, upper), (255, upper)] {
        let network = ipv4_from_net_order(row.destination);
        assert_eq!(row.prefix_len, 1);
        assert_eq!(a / 128, network.a / 128);
        assert_ne!(row.valid_lifetime, 0);
    }
}

/// A route table that refuses a second row of the same name, and rows for one network.
struct Routes {
    rows: Vec<RouteRow>,
    refused: Option<Ipv4Addr>,
}

fn same_name(a: &RouteRow, b: &RouteRow) -> bool {
    a.if_luid == b.if_luid
        && a.if_index == b.if_index
        && a.destination == b.destination
        && a.prefix_len == b.prefix_len
        && a.next_hop == b.next_hop
}

impl Routes {
    fn create(&mut self, row: RouteRow) -> u32 {
        if self.refused == Some(ipv4_from_net_order(row.destination)) {
            return 87;
        }
        if self.rows.iter().any(|r| same_name(r, &row)) {
            return 5010;
        }
        self.rows.push(row);
        0
    }

    fn delete(&mut self, row: &RouteRow) -> u32 {
        let before = self.rows.len();
        self.rows.retain(|r| !same_name(r, row));
        if self.rows.len() < before {
            0
        } else {
            1168
        }
    }

    fn clean(&mut self, ip: Ipv4Addr) -> u32 {
        let rows = self.rows.clone();
        let found = scan_overlay_rows_raw(&rows, ip);
        let codes = found.into_iter().map(|i| self.delete(&rows[i])).collect();
        cleanup_code(&codes)
    }

    fn enable(&mut self) -> Result<SwitchHandle, CoreError> {
        let strategy = RouteOverlayStrategy::new();
        let (mut m, mut action) = strategy.enable(&target(IpAddr::V4(router())))?;
        loop {
            let reply = match action {
                OverlayAction::ResolveInterface(_) => OverlayReply::Interface(7, 9),
                OverlayAction::Cleanup(ip) => OverlayReply::Code(self.clean(ip)),
                OverlayAction::Create(row) => OverlayReply::Code(self.create(row)),
                OverlayAction::Delete(row) => OverlayReply::Code(self.delete(&row)),
                OverlayAction::Finish(r) => return r,
            };
            action = match m.step(reply) {
                Some(next) => next,
                None => panic!("every answer was asked for"),
            };
        }
    }

    fn disable(&mut self, h: &SwitchHandle) {
        match RouteOverlayStrategy::new().disable(h) {
            Ok(plan) => {
                assert_eq!(self.delete(&plan.main), 0);
                for row in plan.extras {
                    assert_eq!(self.delete(&row), 0);
                }
            }
            Err(e) => panic!("{}", e.message()),
        }
    }
}

fn others() -> Vec<RouteRow> {
    let mut default = build_row(9, 7, unspecified(), 0, Ipv4Addr::new(10, 0, 0, 1), 25);
    default.protocol = 2;
    vec![
        default,
        build_row(4, 3, unspecified(), 1, Ipv4Addr::new(10, 8, 0, 1), 5),
        build_row(9, 7, Ipv4Addr::new(10, 0, 0, 0), 8, router(), 5),
    ]
}

#[test]
fn disabling_gives_the_table_back() {
    let mut t = Routes { rows: others(), refused: None };
    let h = match t.enable() {
        Ok(h) => h,
        Err(e) => panic!("{}", e.message()),
    };
    assert_eq!(t.rows.len(), 5);
    assert!(RouteOverlayStrategy::new().is_active(&h, &t.rows, &vec![7]));
    t.disable(&h);
    assert_eq!(t.rows, others());

    // A leftover of an earlier run is gone as well.
    let mut rows = others();
    rows.push(build_row(9, 7, unspecified(), 1, router(), 5));
    let mut t = Routes { rows, refused: None };
    match t.enable() {
        Ok(h) => t.disable(&h),
        Err(e) => panic!("{}", e.message()),
    }
    assert_eq!(t.rows, others());
}

#[test]
fn failed_enabling_leaves_no_route() {
    for refused in [unspecified(), upper_half()] {
        let mut t = Routes { rows: others(), refused: Some(refused) };
        assert!(t.enable().is_err());
        assert_eq!(t.rows, others());
    }
}
