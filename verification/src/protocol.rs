//! The data that the core and its clients exchange.

use vstd::prelude::*;

use crate::addr::{unspecified, zero_addr, IpAddr, Ipv4Addr};

verus! {

/// The version of the protocol.
pub const PROTOCOL_VERSION: u32 = 1;

/// The name of the pipe that the core listens on.
pub const PIPE_NAME: &'static str = r"\\.\pipe\BypassToolCore";

/// The request was not valid JSON.
pub const PARSE_ERROR: i32 = -32700;

/// The JSON was not a valid request.
pub const INVALID_REQUEST: i32 = -32600;

/// There is no such method.
pub const METHOD_NOT_FOUND: i32 = -32601;

/// The parameters do not suit the method.
pub const INVALID_PARAMS: i32 = -32602;

/// The server failed.
pub const INTERNAL_ERROR: i32 = -32603;

/// The operation was refused or failed.
pub const APP_ERROR: i32 = 1;

/// A moment: whole seconds since the epoch and the nanoseconds after them.
#[derive(Debug, Clone, Copy, PartialEq, Eq, Structural)]
pub struct Timestamp {
    pub secs: i64,
    pub nanos: u32,
}

/// How traffic is sent through the bypass router.
#[derive(Debug, Clone, Copy, PartialEq, Eq, Structural)]
pub enum SwitchMode {
    /// More specific routes are laid over the default route.
    RouteOverlay,
    /// The adapter is given a static address with the bypass router as its gateway.
    AdapterReconfig,
}

/// The health of the bypass, as clients see it.
#[derive(Debug, Clone, Copy, PartialEq, Eq, Structural)]
pub enum HealthStatus {
    /// Not enabled.
    Idle,
    /// Probes succeed.
    Healthy,
    /// Probes fail, but not often enough to give up.
    Degraded { consecutive_failures: u32 },
    /// Given up: traffic goes directly.
    Fallback,
    /// Probes succeed again.
    Recovered,
}

// ---------------------------------------------------------------------------
// Switching
// ---------------------------------------------------------------------------

/// Where traffic is to be sent.
#[derive(Debug, PartialEq, Eq)]
pub struct BypassTarget {
    pub adapter_id: String,
    pub bypass_ip: IpAddr,
    pub dns: Option<Vec<IpAddr>>,
    /// The mask for adapter reconfiguration; 255.255.255.0 where there is none.
    pub subnet_mask: Option<Ipv4Addr>,
    /// The address for adapter reconfiguration; the current one where there is none.
    pub static_ip: Option<Ipv4Addr>,
}

/// A target by its contents.
pub struct TargetView {
    pub adapter_id: Seq<char>,
    pub bypass_ip: IpAddr,
    pub dns: Option<Seq<IpAddr>>,
    pub subnet_mask: Option<Ipv4Addr>,
    pub static_ip: Option<Ipv4Addr>,
}

/// An optional list by its contents.
pub open spec fn list_view(v: Option<Vec<IpAddr>>) -> Option<Seq<IpAddr>> {
    match v {
        Some(l) => Some(l@),
        None => None,
    }
}

/// An optional text by its characters.
pub open spec fn text_view(v: Option<String>) -> Option<Seq<char>> {
    match v {
        Some(s) => Some(s@),
        None => None,
    }
}

impl View for BypassTarget {
    type V = TargetView;

    open spec fn view(&self) -> TargetView {
        TargetView {
            adapter_id: self.adapter_id@,
            bypass_ip: self.bypass_ip,
            dns: list_view(self.dns),
            subnet_mask: self.subnet_mask,
            static_ip: self.static_ip,
        }
    }
}

fn clone_ips(v: &Vec<IpAddr>) -> (res: Vec<IpAddr>)
    ensures
        res@ == v@,
{
    let res = v.clone();
    assert(res@ =~= v@);
    res
}

fn clone_list(v: &Option<Vec<IpAddr>>) -> (res: Option<Vec<IpAddr>>)
    ensures
        list_view(res) == list_view(*v),
{
    match v {
        Some(l) => Some(clone_ips(l)),
        None => None,
    }
}

pub(crate) fn clone_text(v: &Option<String>) -> (res: Option<String>)
    ensures
        text_view(res) == text_view(*v),
{
    match v {
        Some(s) => Some(s.clone()),
        None => None,
    }
}

impl Clone for BypassTarget {
    fn clone(&self) -> (res: Self)
        ensures
            res@ == self@,
    {
        BypassTarget {
            adapter_id: self.adapter_id.clone(),
            bypass_ip: self.bypass_ip,
            dns: clone_list(&self.dns),
            subnet_mask: self.subnet_mask,
            static_ip: self.static_ip,
        }
    }
}

/// A further route that a handle stands for.
#[derive(Debug, PartialEq, Eq)]
pub struct HandleRoute {
    /// The prefix, such as "128.0.0.0/1".
    pub destination_prefix: String,
    pub if_index: u32,
    pub if_luid: u64,
}

/// A further route by its contents.
pub struct HandleRouteView {
    pub destination_prefix: Seq<char>,
    pub if_index: u32,
    pub if_luid: u64,
}

impl View for HandleRoute {
    type V = HandleRouteView;

    open spec fn view(&self) -> HandleRouteView {
        HandleRouteView {
            destination_prefix: self.destination_prefix@,
            if_index: self.if_index,
            if_luid: self.if_luid,
        }
    }
}

impl Clone for HandleRoute {
    fn clone(&self) -> (res: Self)
        ensures
            res@ == self@,
    {
        HandleRoute {
            destination_prefix: self.destination_prefix.clone(),
            if_index: self.if_index,
            if_luid: self.if_luid,
        }
    }
}

/// What was switched, so that exactly that can be undone.
#[derive(Debug, PartialEq, Eq)]
pub struct SwitchHandle {
    pub mode: SwitchMode,
    pub if_index: Option<u32>,
    pub if_luid: Option<u64>,
    pub destination_prefix: Option<String>,
    pub next_hop: Option<IpAddr>,
    pub adapter_id: Option<String>,
    pub extra_routes: Vec<HandleRoute>,
}

/// A handle by its contents.
pub struct HandleView {
    pub mode: SwitchMode,
    pub if_index: Option<u32>,
    pub if_luid: Option<u64>,
    pub destination_prefix: Option<Seq<char>>,
    pub next_hop: Option<IpAddr>,
    pub adapter_id: Option<Seq<char>>,
    pub extra_routes: Seq<HandleRouteView>,
}

/// The further routes of a handle by their contents.
pub open spec fn routes_view(v: Seq<HandleRoute>) -> Seq<HandleRouteView> {
    v.map_values(|r: HandleRoute| r@)
}

impl View for SwitchHandle {
    type V = HandleView;

    open spec fn view(&self) -> HandleView {
        HandleView {
            mode: self.mode,
            if_index: self.if_index,
            if_luid: self.if_luid,
            destination_prefix: text_view(self.destination_prefix),
            next_hop: self.next_hop,
            adapter_id: text_view(self.adapter_id),
            extra_routes: routes_view(self.extra_routes@),
        }
    }
}

fn clone_routes(v: &Vec<HandleRoute>) -> (res: Vec<HandleRoute>)
    ensures
        routes_view(res@) == routes_view(v@),
{
    let mut res: Vec<HandleRoute> = Vec::new();
    let mut i: usize = 0;
    while i < v.len()
        invariant
            i <= v@.len(),
            res@.len() == i,
            forall|k: int| 0 <= k < i ==> #[trigger] res@[k]@ == v@[k]@,
        decreases v@.len() - i,
    {
        res.push(v[i].clone());
        i = i + 1;
    }
    assert(routes_view(res@) =~= routes_view(v@));
    res
}

impl Clone for SwitchHandle {
    fn clone(&self) -> (res: Self)
        ensures
            res@ == self@,
    {
        SwitchHandle {
            mode: self.mode,
            if_index: self.if_index,
            if_luid: self.if_luid,
            destination_prefix: clone_text(&self.destination_prefix),
            next_hop: self.next_hop,
            adapter_id: clone_text(&self.adapter_id),
            extra_routes: clone_routes(&self.extra_routes),
        }
    }
}

/// An optional handle by its contents.
pub open spec fn handle_view(h: Option<SwitchHandle>) -> Option<HandleView> {
    match h {
        Some(x) => Some(x@),
        None => None,
    }
}

/// The routes of a network interface towards the outside.
#[derive(Debug)]
pub struct RouteState {
    pub default_via_bypass: bool,
    pub default_next_hops: Vec<IpAddr>,
}

// ---------------------------------------------------------------------------
// Adapters
// ---------------------------------------------------------------------------

/// A network adapter.
#[derive(Debug)]
pub struct AdapterInfo {
    pub id: String,
    /// The name that the system shows.
    pub name: String,
    pub kind: String,
    pub mac: Option<String>,
    pub ipv4: Vec<IpAddr>,
    /// The prefix lengths that belong to `ipv4`, one for one.
    pub ipv4_prefixes: Vec<u8>,
    pub gateway: Vec<IpAddr>,
    pub dns: Vec<IpAddr>,
    pub is_connected: bool,
}

/// An adapter by its contents.
pub struct AdapterView {
    pub id: Seq<char>,
    pub name: Seq<char>,
    pub kind: Seq<char>,
    pub mac: Option<Seq<char>>,
    pub ipv4: Seq<IpAddr>,
    pub ipv4_prefixes: Seq<u8>,
    pub gateway: Seq<IpAddr>,
    pub dns: Seq<IpAddr>,
    pub is_connected: bool,
}

impl View for AdapterInfo {
    type V = AdapterView;

    open spec fn view(&self) -> AdapterView {
        AdapterView {
            id: self.id@,
            name: self.name@,
            kind: self.kind@,
            mac: text_view(self.mac),
            ipv4: self.ipv4@,
            ipv4_prefixes: self.ipv4_prefixes@,
            gateway: self.gateway@,
            dns: self.dns@,
            is_connected: self.is_connected,
        }
    }
}

/// Adapters by their contents.
pub open spec fn adapters_view(v: Seq<AdapterInfo>) -> Seq<AdapterView> {
    v.map_values(|a: AdapterInfo| a@)
}

/// The first adapter with the id, if there is one.
pub open spec fn find_adapter(list: Seq<AdapterView>, id: Seq<char>) -> Option<AdapterView>
    decreases list.len(),
{
    if list.len() == 0 {
        None
    } else if list[0].id == id {
        Some(list[0])
    } else {
        find_adapter(list.skip(1), id)
    }
}

/// The state of an adapter before it was reconfigured.
#[derive(Debug)]
pub struct AdapterSnapshot {
    pub adapter_id: String,
    pub is_dhcp_enabled: bool,
    pub static_ipv4: Vec<IpAddr>,
    pub static_ipv4_mask: Vec<u8>,
    pub gateway: Vec<IpAddr>,
    pub dns: Vec<IpAddr>,
}

/// A snapshot by its contents.
pub struct SnapshotView {
    pub adapter_id: Seq<char>,
    pub is_dhcp_enabled: bool,
    pub static_ipv4: Seq<IpAddr>,
    pub static_ipv4_mask: Seq<u8>,
    pub gateway: Seq<IpAddr>,
    pub dns: Seq<IpAddr>,
}

impl View for AdapterSnapshot {
    type V = SnapshotView;

    open spec fn view(&self) -> SnapshotView {
        SnapshotView {
            adapter_id: self.adapter_id@,
            is_dhcp_enabled: self.is_dhcp_enabled,
            static_ipv4: self.static_ipv4@,
            static_ipv4_mask: self.static_ipv4_mask@,
            gateway: self.gateway@,
            dns: self.dns@,
        }
    }
}

// ---------------------------------------------------------------------------
// State and configuration
// ---------------------------------------------------------------------------

/// The state of the core while it runs.
#[derive(Debug, Clone, Copy, PartialEq, Eq, Structural)]
pub struct RuntimeState {
    pub is_enabled: bool,
    pub current_mode: Option<SwitchMode>,
    pub health: HealthStatus,
    pub last_updated: Timestamp,
}

impl RuntimeState {
    /// The state before anything was enabled.
    pub open spec fn initial(now: Timestamp) -> RuntimeState {
        RuntimeState {
            is_enabled: false,
            current_mode: None,
            health: HealthStatus::Idle,
            last_updated: now,
        }
    }

    /// The state before anything was enabled.
    pub fn default_at(now: Timestamp) -> (rs: RuntimeState)
        ensures
            rs == Self::initial(now),
    {
        RuntimeState {
            is_enabled: false,
            current_mode: None,
            health: HealthStatus::Idle,
            last_updated: now,
        }
    }
}

/// What the user configures.
#[derive(Debug)]
pub struct AppConfig {
    pub adapter_id: String,
    pub bypass_ip: IpAddr,
    pub switch_mode: SwitchMode,
    pub dns_override: Option<Vec<IpAddr>>,
    /// The mask for adapter reconfiguration; 255.255.255.0 where there is none.
    pub subnet_mask: Option<Ipv4Addr>,
    /// The address for adapter reconfiguration; the current one where there is none.
    pub static_ip: Option<Ipv4Addr>,
    pub health_check_interval_secs: u32,
    pub failure_threshold: u32,
    pub auto_reenable_after_recovery: bool,
    pub notifications_enabled: bool,
}

/// A configuration by its contents.
pub struct ConfigView {
    pub adapter_id: Seq<char>,
    pub bypass_ip: IpAddr,
    pub switch_mode: SwitchMode,
    pub dns_override: Option<Seq<IpAddr>>,
    pub subnet_mask: Option<Ipv4Addr>,
    pub static_ip: Option<Ipv4Addr>,
    pub health_check_interval_secs: u32,
    pub failure_threshold: u32,
    pub auto_reenable_after_recovery: bool,
    pub notifications_enabled: bool,
}

impl View for AppConfig {
    type V = ConfigView;

    open spec fn view(&self) -> ConfigView {
        ConfigView {
            adapter_id: self.adapter_id@,
            bypass_ip: self.bypass_ip,
            switch_mode: self.switch_mode,
            dns_override: list_view(self.dns_override),
            subnet_mask: self.subnet_mask,
            static_ip: self.static_ip,
            health_check_interval_secs: self.health_check_interval_secs,
            failure_threshold: self.failure_threshold,
            auto_reenable_after_recovery: self.auto_reenable_after_recovery,
            notifications_enabled: self.notifications_enabled,
        }
    }
}

impl ConfigView {
    /// The configuration before the user has set anything.
    pub open spec fn initial() -> ConfigView {
        ConfigView {
            adapter_id: Seq::empty(),
            bypass_ip: IpAddr::V4(zero_addr()),
            switch_mode: SwitchMode::RouteOverlay,
            dns_override: None,
            subnet_mask: None,
            static_ip: None,
            health_check_interval_secs: 5,
            failure_threshold: 3,
            auto_reenable_after_recovery: false,
            notifications_enabled: true,
        }
    }

    /// The target that the configuration describes.
    pub open spec fn target(self) -> TargetView {
        TargetView {
            adapter_id: self.adapter_id,
            bypass_ip: self.bypass_ip,
            dns: self.dns_override,
            subnet_mask: self.subnet_mask,
            static_ip: self.static_ip,
        }
    }
}

impl Default for AppConfig {
    fn default() -> (cfg: Self)
        ensures
            cfg@ == ConfigView::initial(),
    {
        AppConfig {
            adapter_id: String::new(),
            bypass_ip: IpAddr::V4(unspecified()),
            switch_mode: SwitchMode::RouteOverlay,
            dns_override: None,
            subnet_mask: None,
            static_ip: None,
            health_check_interval_secs: 5,
            failure_threshold: 3,
            auto_reenable_after_recovery: false,
            notifications_enabled: true,
        }
    }
}

impl Clone for AppConfig {
    fn clone(&self) -> (res: Self)
        ensures
            res@ == self@,
    {
        AppConfig {
            adapter_id: self.adapter_id.clone(),
            bypass_ip: self.bypass_ip,
            switch_mode: self.switch_mode,
            dns_override: clone_list(&self.dns_override),
            subnet_mask: self.subnet_mask,
            static_ip: self.static_ip,
            health_check_interval_secs: self.health_check_interval_secs,
            failure_threshold: self.failure_threshold,
            auto_reenable_after_recovery: self.auto_reenable_after_recovery,
            notifications_enabled: self.notifications_enabled,
        }
    }
}

/// The target that a configuration describes.
pub fn bypass_target(cfg: &AppConfig) -> (target: BypassTarget)
    ensures
        target@ == cfg@.target(),
{
    BypassTarget {
        adapter_id: cfg.adapter_id.clone(),
        bypass_ip: cfg.bypass_ip,
        dns: clone_list(&cfg.dns_override),
        subnet_mask: cfg.subnet_mask,
        static_ip: cfg.static_ip,
    }
}

// ---------------------------------------------------------------------------
// Events
// ---------------------------------------------------------------------------

/// What happened to the health of the bypass.
#[derive(Debug, PartialEq, Eq)]
pub enum HealthEventType {
    ProbeFailed { consecutive_count: u32 },
    ProbeRecovered,
    AutoFallbackTriggered { reason: String },
}

/// An event type by its contents.
pub enum EventTypeView {
    ProbeFailed { consecutive_count: u32 },
    ProbeRecovered,
    AutoFallbackTriggered { reason: Seq<char> },
}

impl View for HealthEventType {
    type V = EventTypeView;

    open spec fn view(&self) -> EventTypeView {
        match *self {
            HealthEventType::ProbeFailed { consecutive_count } => EventTypeView::ProbeFailed {
                consecutive_count,
            },
            HealthEventType::ProbeRecovered => EventTypeView::ProbeRecovered,
            HealthEventType::AutoFallbackTriggered { reason } =>
                EventTypeView::AutoFallbackTriggered { reason: reason@ },
        }
    }
}

/// An event that clients are told of.
#[derive(Debug)]
pub struct HealthEvent {
    pub event_type: HealthEventType,
    pub reason: Option<String>,
    pub at: Timestamp,
}

/// An event by its contents.
pub struct EventView {
    pub event_type: EventTypeView,
    pub reason: Option<Seq<char>>,
    pub at: Timestamp,
}

impl View for HealthEvent {
    type V = EventView;

    open spec fn view(&self) -> EventView {
        EventView { event_type: self.event_type@, reason: text_view(self.reason), at: self.at }
    }
}

// ---------------------------------------------------------------------------
// Messages; what a message carries is JSON text
// ---------------------------------------------------------------------------

/// A call of a remote procedure.
#[derive(Debug)]
pub struct RpcRequest {
    pub jsonrpc: String,
    pub id: u64,
    pub method: String,
    /// The parameters as JSON text.
    pub params: String,
}

/// An error that a call is answered with.
#[derive(Debug)]
pub struct RpcError {
    pub code: i32,
    pub message: String,
    pub data: Option<String>,
}

/// What a call came to.
#[derive(Debug)]
pub enum RpcOutcome {
    /// The result as JSON text.
    Success { result: String },
    Failure { error: RpcError },
}

/// An outcome by its contents.
pub enum OutcomeView {
    Success { result: Seq<char> },
    Failure { code: i32, message: Seq<char>, data: Option<Seq<char>> },
}

impl View for RpcOutcome {
    type V = OutcomeView;

    open spec fn view(&self) -> OutcomeView {
        match *self {
            RpcOutcome::Success { result } => OutcomeView::Success { result: result@ },
            RpcOutcome::Failure { error } => OutcomeView::Failure {
                code: error.code,
                message: error.message@,
                data: text_view(error.data),
            },
        }
    }
}

/// The answer to a call.
#[derive(Debug)]
pub struct RpcResponse {
    pub jsonrpc: String,
    pub id: u64,
    pub result: RpcOutcome,
    /// The version of the protocol that the server speaks.
    pub protocol_version: Option<u32>,
    /// The modes that the server can switch.
    pub supported_modes: Option<Vec<SwitchMode>>,
}

/// An answer by its contents.
pub struct ResponseView {
    pub jsonrpc: Seq<char>,
    pub id: u64,
    pub result: OutcomeView,
    pub protocol_version: Option<u32>,
    pub supported_modes: Option<Seq<SwitchMode>>,
}

impl View for RpcResponse {
    type V = ResponseView;

    open spec fn view(&self) -> ResponseView {
        ResponseView {
            jsonrpc: self.jsonrpc@,
            id: self.id,
            result: self.result@,
            protocol_version: self.protocol_version,
            supported_modes: match self.supported_modes {
                Some(m) => Some(m@),
                None => None,
            },
        }
    }
}

impl ResponseView {
    /// The answer to the call `id`, with the capabilities of the server.
    pub open spec fn to(id: u64, result: OutcomeView) -> ResponseView {
        ResponseView {
            jsonrpc: "2.0"@,
            id,
            result,
            protocol_version: Some(PROTOCOL_VERSION),
            supported_modes: Some(seq![SwitchMode::RouteOverlay, SwitchMode::AdapterReconfig]),
        }
    }
}

/// Every mode there is.
pub fn supported_modes() -> (out: Vec<SwitchMode>)
    ensures
        out@ == seq![SwitchMode::RouteOverlay, SwitchMode::AdapterReconfig],
{
    let mut out: Vec<SwitchMode> = Vec::new();
    out.push(SwitchMode::RouteOverlay);
    out.push(SwitchMode::AdapterReconfig);
    assert(out@ =~= seq![SwitchMode::RouteOverlay, SwitchMode::AdapterReconfig]);
    out
}

impl RpcResponse {
    /// The answer to the call `id`, with the capabilities of the server.
    pub fn answer(id: u64, result: RpcOutcome) -> (resp: RpcResponse)
        ensures
            resp@ == ResponseView::to(id, result@),
    {
        RpcResponse {
            jsonrpc: "2.0".to_owned(),
            id,
            result,
            protocol_version: Some(PROTOCOL_VERSION),
            supported_modes: Some(supported_modes()),
        }
    }
}

impl Default for RpcResponse {
    fn default() -> (resp: Self)
        ensures
            resp@ == ResponseView::to(0, (OutcomeView::Success { result: "null"@ })),
    {
        RpcResponse::answer(0, RpcOutcome::Success { result: "null".to_owned() })
    }
}

/// A message that the server sends without having been asked.
#[derive(Debug)]
pub struct RpcNotification {
    pub jsonrpc: String,
    pub method: String,
    /// The parameters as JSON text.
    pub params: String,
}

/// One message on the wire.
#[derive(Debug)]
pub enum WireMessage {
    Request(RpcRequest),
    Response(RpcResponse),
    Notification(RpcNotification),
}

} // verus!
