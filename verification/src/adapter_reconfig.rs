//! Adapter reconfiguration: the adapter gets a fixed address with the bypass router as
//! its gateway, and gets back later what it had before.

use vstd::prelude::*;

use crate::adapters::position_of;
use crate::addr::{class_c_mask, default_mask, IpAddr, Ipv4Addr};
use crate::error::{CoreError, ErrorView};
use crate::netsh::{
    commands_view, dhcp_command, dhcp_dns_command, dns_commands, enable_dhcp, reset_dns, set_dns,
    set_static_ipv4, static_command, CommandView, NetshCommand,
};
use crate::protocol::{
    adapters_view, find_adapter, AdapterInfo, AdapterSnapshot, AdapterView, BypassTarget,
    HandleView, SnapshotView, SwitchHandle, SwitchMode, TargetView,
};
use crate::restore::{Restore, RestoreAction, RestoreActionView};
use crate::switch_engine::ReconcileAction;
use crate::text::concat3;

verus! {

/// The error of an adapter that is not there.
pub open spec fn no_adapter(id: Seq<char>) -> ErrorView {
    ErrorView::Network("网卡 "@ + id + " 不存在"@)
}

/// The error of an adapter that is no longer there.
pub open spec fn adapter_gone(id: Seq<char>) -> ErrorView {
    ErrorView::Network("网卡 "@ + id + " 已不存在"@)
}

/// The IPv4 addresses of a list, in order.
pub open spec fn v4_addresses(list: Seq<IpAddr>) -> Seq<Ipv4Addr>
    decreases list.len(),
{
    if list.len() == 0 {
        seq![]
    } else {
        let front = v4_addresses(list.drop_last());
        match list.last() {
            IpAddr::V4(ip) => front.push(ip),
            IpAddr::V6(_) => front,
        }
    }
}

/// Picks the IPv4 addresses of a list, in order.
pub fn only_v4(list: &Vec<IpAddr>) -> (out: Vec<Ipv4Addr>)
    ensures
        out@ == v4_addresses(list@),
{
    let mut out: Vec<Ipv4Addr> = Vec::new();
    let mut i: usize = 0;
    while i < list.len()
        invariant
            i <= list@.len(),
            out@ == v4_addresses(list@.take(i as int)),
        decreases list@.len() - i,
    {
        assert(list@.take(i + 1).drop_last() =~= list@.take(i as int));
        match list[i] {
            IpAddr::V4(ip) => {
                out.push(ip);
            },
            IpAddr::V6(_) => {},
        }
        i = i + 1;
    }
    assert(list@.take(list@.len() as int) =~= list@);
    out
}

/// The address that the adapter is to have: the configured one, or the one it has.
pub open spec fn own_address(t: TargetView, a: AdapterView) -> Result<Ipv4Addr, ErrorView> {
    match t.static_ip {
        Some(ip) => Ok(ip),
        None => if a.ipv4.len() == 0 {
            Err(ErrorView::Network("网卡无 IPv4 地址，无法直改"@))
        } else {
            match a.ipv4[0] {
                IpAddr::V4(ip) => Ok(ip),
                IpAddr::V6(_) => Err(ErrorView::Network("仅支持 IPv4"@)),
            }
        },
    }
}

/// The name servers that the adapter is to have: the configured ones, or the router.
pub open spec fn own_dns(t: TargetView, router: Ipv4Addr) -> Seq<Ipv4Addr> {
    match t.dns {
        Some(d) => if d.len() > 0 {
            v4_addresses(d)
        } else {
            seq![router]
        },
        None => seq![router],
    }
}

/// The mask that the adapter is to have.
pub open spec fn own_mask(t: TargetView) -> Ipv4Addr {
    match t.subnet_mask {
        Some(m) => m,
        None => class_c_mask(),
    }
}

/// The handle of a reconfigured adapter.
pub open spec fn reconfig_handle(id: Seq<char>) -> HandleView {
    HandleView {
        mode: SwitchMode::AdapterReconfig,
        if_index: None,
        if_luid: None,
        destination_prefix: None,
        next_hop: None,
        adapter_id: Some(id),
        extra_routes: seq![],
    }
}

/// The commands that send the adapter's traffic to the router.
pub open spec fn enable_commands(t: TargetView, list: Seq<AdapterView>) -> Result<
    Seq<CommandView>,
    ErrorView,
> {
    match t.bypass_ip {
        IpAddr::V6(_) => Err(ErrorView::Network("仅支持 IPv4 旁路由地址"@)),
        IpAddr::V4(router) => match find_adapter(list, t.adapter_id) {
            None => Err(no_adapter(t.adapter_id)),
            Some(a) => match own_address(t, a) {
                Err(e) => Err(e),
                Ok(ip) => Ok(
                    seq![static_command(a.name, ip, own_mask(t), router)] + dns_commands(
                        a.name,
                        own_dns(t, router),
                    ),
                ),
            },
        },
    }
}

/// The commands that give the adapter back what it had.
pub open spec fn restore_commands(s: SnapshotView, list: Seq<AdapterView>) -> Result<
    Seq<CommandView>,
    ErrorView,
> {
    match find_adapter(list, s.adapter_id) {
        None => Err(adapter_gone(s.adapter_id)),
        Some(a) => if s.is_dhcp_enabled {
            Ok(seq![dhcp_command(a.name), dhcp_dns_command(a.name)])
        } else if s.static_ipv4.len() == 0 || s.static_ipv4[0] is V6 {
            Err(ErrorView::Network("快照缺少 IPv4"@))
        } else if s.gateway.len() == 0 || s.gateway[0] is V6 {
            Err(ErrorView::Network("快照缺少网关"@))
        } else {
            Ok(
                seq![
                    static_command(
                        a.name,
                        s.static_ipv4[0]->V4_0,
                        class_c_mask(),
                        s.gateway[0]->V4_0,
                    ),
                ] + if s.dns.len() == 0 {
                    seq![dhcp_dns_command(a.name)]
                } else {
                    dns_commands(a.name, v4_addresses(s.dns))
                },
            )
        },
    }
}

/// The state of an adapter that is kept before it is reconfigured.
pub open spec fn snapshot_of(a: AdapterView, dhcp: Option<bool>) -> SnapshotView {
    SnapshotView {
        adapter_id: a.id,
        is_dhcp_enabled: dhcp == Some(true),
        static_ipv4: a.ipv4,
        static_ipv4_mask: Seq::new(a.ipv4.len(), |i: int| 24u8),
        gateway: a.gateway,
        dns: a.dns,
    }
}

fn first_v4(list: &Vec<IpAddr>) -> (r: Option<Ipv4Addr>)
    ensures
        match r {
            Some(ip) => list@.len() > 0 && list@[0] == IpAddr::V4(ip),
            None => list@.len() == 0 || list@[0] is V6,
        },
{
    if list.len() == 0 {
        return None;
    }
    match list[0] {
        IpAddr::V4(ip) => Some(ip),
        IpAddr::V6(_) => None,
    }
}

fn with_first(first: NetshCommand, mut rest: Vec<NetshCommand>) -> (out: Vec<NetshCommand>)
    ensures
        commands_view(out@) == seq![first@] + commands_view(rest@),
{
    let ghost tail = rest@;
    rest.insert(0, first);
    proof {
        let want = seq![first@] + commands_view(tail);
        assert forall|k: int| 0 <= k < want.len() implies #[trigger] commands_view(rest@)[k]
            == want[k] by {
            if k > 0 {
                assert(rest@[k] == tail[k - 1]);
            }
        }
        assert(commands_view(rest@) =~= want);
    }
    rest
}

/// The strategy of reconfiguring the adapter.
#[derive(Debug, Clone, Copy, PartialEq, Eq, Structural)]
pub struct AdapterReconfigStrategy;

impl Default for AdapterReconfigStrategy {
    fn default() -> (s: AdapterReconfigStrategy)
        ensures
            s == AdapterReconfigStrategy,
    {
        AdapterReconfigStrategy::new()
    }
}

/// What enabling consists of: the commands, and the handle once all have succeeded.
#[derive(Debug)]
pub struct ReconfigPlan {
    pub commands: Vec<NetshCommand>,
    pub handle: SwitchHandle,
}

impl AdapterReconfigStrategy {
    /// The strategy.
    pub fn new() -> (s: AdapterReconfigStrategy)
        ensures
            s == AdapterReconfigStrategy,
    {
        AdapterReconfigStrategy
    }

    /// What the strategy puts right at startup by itself: nothing. The controller does,
    /// because it knows what is expected.
    pub fn reconcile_on_startup(&self) -> (a: ReconcileAction)
        ensures
            a == ReconcileAction::NoAction,
    {
        ReconcileAction::NoAction
    }

    /// The name by which netsh knows the adapter.
    pub fn iface_name(&self, list: &Vec<AdapterInfo>, adapter_id: &str) -> (r: Result<
        String,
        CoreError,
    >)
        ensures
            match find_adapter(adapters_view(list@), adapter_id@) {
                Some(a) => r matches Ok(name) && name@ == a.name,
                None => r matches Err(e) && e@ == no_adapter(adapter_id@),
            },
    {
        match position_of(list, adapter_id) {
            Some(i) => Ok(list[i].name.clone()),
            None => Err(CoreError::Network(concat3("网卡 ", adapter_id, " 不存在"))),
        }
    }

    /// Plans to send the adapter's traffic to the router.
    pub fn enable(&self, target: &BypassTarget, list: &Vec<AdapterInfo>) -> (r: Result<
        ReconfigPlan,
        CoreError,
    >)
        ensures
            match r {
                Ok(plan) => {
                    &&& enable_commands(target@, adapters_view(list@)) == Ok::<_, ErrorView>(
                        commands_view(plan.commands@),
                    )
                    &&& plan.handle@ == reconfig_handle(target@.adapter_id)
                },
                Err(e) => enable_commands(target@, adapters_view(list@)) == Err::<
                    Seq<CommandView>,
                    _,
                >(e@),
            },
    {
        let router = match target.bypass_ip {
            IpAddr::V4(ip) => ip,
            IpAddr::V6(_) => {
                return Err(CoreError::Network("仅支持 IPv4 旁路由地址".to_owned()));
            },
        };
        let at = match position_of(list, target.adapter_id.as_str()) {
            Some(i) => i,
            None => {
                return Err(
                    CoreError::Network(
                        concat3("网卡 ", target.adapter_id.as_str(), " 不存在"),
                    ),
                );
            },
        };
        let current = &list[at];
        let ip = match target.static_ip {
            Some(ip) => ip,
            None => {
                if current.ipv4.len() == 0 {
                    return Err(CoreError::Network("网卡无 IPv4 地址，无法直改".to_owned()));
                }
                match current.ipv4[0] {
                    IpAddr::V4(ip) => ip,
                    IpAddr::V6(_) => {
                        return Err(CoreError::Network("仅支持 IPv4".to_owned()));
                    },
                }
            },
        };
        let mask = match target.subnet_mask {
            Some(m) => m,
            None => default_mask(),
        };
        let configured: Vec<Ipv4Addr> = match &target.dns {
            Some(d) if d.len() > 0 => only_v4(d),
            _ => {
                let mut own: Vec<Ipv4Addr> = Vec::new();
                own.push(router);
                own
            },
        };
        assert(configured@ =~= own_dns(target@, router));
        let first = set_static_ipv4(current.name.as_str(), ip, mask, router);
        let rest = set_dns(current.name.as_str(), &configured);
        let commands = with_first(first, rest);
        let handle = SwitchHandle {
            mode: SwitchMode::AdapterReconfig,
            if_index: None,
            if_luid: None,
            destination_prefix: None,
            next_hop: None,
            adapter_id: Some(target.adapter_id.clone()),
            extra_routes: Vec::new(),
        };
        assert(handle@.extra_routes =~= reconfig_handle(target@.adapter_id).extra_routes);
        Ok(ReconfigPlan { commands, handle })
    }

    /// Begins to undo the switch: the adapter gets back what the backup holds.
    pub fn disable(&self) -> (r: (Restore, RestoreAction))
        ensures
            r.0.phase@ is Loading,
            r.1@ == RestoreActionView::LoadSnapshot,
    {
        Restore::start()
    }

    /// Plans to give the adapter back what it had.
    pub fn restore_adapter(&self, snap: &AdapterSnapshot, list: &Vec<AdapterInfo>) -> (r: Result<
        Vec<NetshCommand>,
        CoreError,
    >)
        ensures
            match r {
                Ok(commands) => restore_commands(snap@, adapters_view(list@)) == Ok::<_, ErrorView>(
                    commands_view(commands@),
                ),
                Err(e) => restore_commands(snap@, adapters_view(list@)) == Err::<
                    Seq<CommandView>,
                    _,
                >(e@),
            },
    {
        let at = match position_of(list, snap.adapter_id.as_str()) {
            Some(i) => i,
            None => {
                return Err(
                    CoreError::Network(
                        concat3("网卡 ", snap.adapter_id.as_str(), " 已不存在"),
                    ),
                );
            },
        };
        let name = list[at].name.as_str();
        if snap.is_dhcp_enabled {
            let mut rest: Vec<NetshCommand> = Vec::new();
            let dns = reset_dns(name);
            rest.push(dns);
            assert(commands_view(rest@) =~= seq![dns@]);
            let out = with_first(enable_dhcp(name), rest);
            assert(commands_view(out@) =~= seq![dhcp_command(name@), dhcp_dns_command(name@)]);
            return Ok(out);
        }
        let ip = match first_v4(&snap.static_ipv4) {
            Some(ip) => ip,
            None => {
                return Err(CoreError::Network("快照缺少 IPv4".to_owned()));
            },
        };
        let gateway = match first_v4(&snap.gateway) {
            Some(ip) => ip,
            None => {
                return Err(CoreError::Network("快照缺少网关".to_owned()));
            },
        };
        let first = set_static_ipv4(name, ip, default_mask(), gateway);
        let rest: Vec<NetshCommand> = if snap.dns.len() == 0 {
            let mut one: Vec<NetshCommand> = Vec::new();
            let dns = reset_dns(name);
            one.push(dns);
            assert(commands_view(one@) =~= seq![dns@]);
            one
        } else {
            let dns = only_v4(&snap.dns);
            set_dns(name, &dns)
        };
        Ok(with_first(first, rest))
    }

    /// Whether the adapter of a handle still looks reconfigured: it is up and has a
    /// gateway.
    pub fn is_active(&self, handle: &SwitchHandle, list: &Vec<AdapterInfo>) -> (r: bool)
        ensures
            r == match handle@.adapter_id {
                Some(id) => match find_adapter(adapters_view(list@), id) {
                    Some(a) => a.is_connected && a.gateway.len() > 0,
                    None => false,
                },
                None => false,
            },
    {
        match &handle.adapter_id {
            Some(id) => match position_of(list, id.as_str()) {
                Some(i) => list[i].is_connected && list[i].gateway.len() > 0,
                None => false,
            },
            None => false,
        }
    }
}

/// Keeps the state of an adapter before it is reconfigured.
pub fn backup_adapter(list: &Vec<AdapterInfo>, adapter_id: &str, dhcp: Option<bool>) -> (r: Result<
    AdapterSnapshot,
    CoreError,
>)
    ensures
        match find_adapter(adapters_view(list@), adapter_id@) {
            Some(a) => r matches Ok(s) && s@ == snapshot_of(a, dhcp) && s@.adapter_id
                == adapter_id@,
            None => r matches Err(e) && e@ == no_adapter(adapter_id@),
        },
{
    match position_of(list, adapter_id) {
        Some(i) => {
            let a = &list[i];
            let is_dhcp_enabled = match dhcp {
                Some(b) => b,
                None => false,
            };
            let n = a.ipv4.len();
            let mut masks: Vec<u8> = Vec::new();
            let mut k: usize = 0;
            while k < n
                invariant
                    k <= n,
                    masks@ == Seq::new(k as nat, |i: int| 24u8),
                decreases n - k,
            {
                masks.push(24);
                k = k + 1;
                assert(masks@ =~= Seq::new(k as nat, |i: int| 24u8));
            }
            let static_ipv4 = a.ipv4.clone();
            let gateway = a.gateway.clone();
            let dns = a.dns.clone();
            assert(static_ipv4@ =~= a.ipv4@);
            assert(gateway@ =~= a.gateway@);
            assert(dns@ =~= a.dns@);
            Ok(
                AdapterSnapshot {
                    adapter_id: adapter_id.to_owned(),
                    is_dhcp_enabled,
                    static_ipv4,
                    static_ipv4_mask: masks,
                    gateway,
                    dns,
                },
            )
        },
        None => Err(CoreError::Network(concat3("网卡 ", adapter_id, " 不存在"))),
    }
}

// ---------------------------------------------------------------------------
// Laws
// ---------------------------------------------------------------------------

/// What was kept of an adapter on DHCP is restored by turning DHCP on again, for the
/// address and for the name servers.
pub proof fn dhcp_adapter_is_restored_to_dhcp(a: AdapterView, list: Seq<AdapterView>)
    requires
        find_adapter(list, a.id) is Some,
    ensures
        restore_commands(snapshot_of(a, Some(true)), list) == Ok::<_, ErrorView>(
            seq![
                dhcp_command(find_adapter(list, a.id)->0.name),
                dhcp_dns_command(find_adapter(list, a.id)->0.name),
            ],
        ),
{
}

/// What was kept of an adapter with a fixed address is restored to that address, that
/// gateway and these name servers; where it had none, they come by DHCP again.
pub proof fn static_adapter_is_restored_to_its_address(
    a: AdapterView,
    list: Seq<AdapterView>,
    dhcp: Option<bool>,
    ip: Ipv4Addr,
    gateway: Ipv4Addr,
)
    requires
        find_adapter(list, a.id) is Some,
        dhcp != Some(true),
        a.ipv4.len() > 0 && a.ipv4[0] == IpAddr::V4(ip),
        a.gateway.len() > 0 && a.gateway[0] == IpAddr::V4(gateway),
    ensures
        ({
            let name = find_adapter(list, a.id)->0.name;
            restore_commands(snapshot_of(a, dhcp), list) == Ok::<_, ErrorView>(
                seq![static_command(name, ip, class_c_mask(), gateway)] + if a.dns.len() == 0 {
                    seq![dhcp_dns_command(name)]
                } else {
                    dns_commands(name, v4_addresses(a.dns))
                },
            )
        }),
{
}

} // verus!
