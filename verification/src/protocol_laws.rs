//! What the messages between the core and its clients hold, and how calls are answered.

use vstd::prelude::*;

use crate::addr::{IpAddr, Ipv4Addr};
use crate::autostart::truth_of;
use crate::error::{CoreError, ErrorView};
use crate::health_monitor::answered;
use crate::ip_text::ip_of_text;
use crate::ipc_client::received;
use crate::ipc_server::{called, done_outcome, failure, handled, CallView, HandledView};
use crate::json::{json_bool, json_member_of, json_string_of};
use crate::number::{dec, dec_int};
use crate::protocol::{
    handle_view, AdapterInfo, AdapterSnapshot, AppConfig, BypassTarget, ConfigView, EventTypeView,
    HandleRoute, HealthEvent, HealthEventType, HealthStatus, OutcomeView, RpcError, RpcOutcome,
    RpcRequest, RpcResponse, RuntimeState, SwitchHandle, SwitchMode, Timestamp,
};

verus! {

// ---------------------------------------------------------------------------
// Contents
// ---------------------------------------------------------------------------

/// Configurations with the same contents agree in every setting.
pub proof fn contents_settle_the_configuration(a: AppConfig, b: AppConfig)
    ensures
        a@ == b@ ==> {
            &&& a.adapter_id@ == b.adapter_id@
            &&& a.bypass_ip == b.bypass_ip
            &&& a.switch_mode == b.switch_mode
            &&& a.dns_override is Some == b.dns_override is Some
            &&& a.dns_override is Some ==> a.dns_override->0@ == b.dns_override->0@
            &&& a.subnet_mask == b.subnet_mask
            &&& a.static_ip == b.static_ip
            &&& a.health_check_interval_secs == b.health_check_interval_secs
            &&& a.failure_threshold == b.failure_threshold
            &&& a.auto_reenable_after_recovery == b.auto_reenable_after_recovery
            &&& a.notifications_enabled == b.notifications_enabled
        },
        a@.adapter_id == a.adapter_id@,
        a@.bypass_ip == a.bypass_ip,
        a@.switch_mode == a.switch_mode,
        a.dns_override matches Some(l) ==> a@.dns_override == Some(l@),
        a.dns_override is None ==> a@.dns_override is None,
        a@.subnet_mask == a.subnet_mask,
        a@.static_ip == a.static_ip,
        a@.health_check_interval_secs == a.health_check_interval_secs,
        a@.failure_threshold == a.failure_threshold,
        a@.auto_reenable_after_recovery == a.auto_reenable_after_recovery,
        a@.notifications_enabled == a.notifications_enabled,
{
}

/// Targets with the same contents agree in everything.
pub proof fn contents_settle_the_target(a: BypassTarget)
    ensures
        a@.adapter_id == a.adapter_id@,
        a@.bypass_ip == a.bypass_ip,
        a.dns matches Some(l) ==> a@.dns == Some(l@),
        a.dns is None ==> a@.dns is None,
        a@.subnet_mask == a.subnet_mask,
        a@.static_ip == a.static_ip,
{
}

/// The contents of a handle are what it says of the route, the adapter and further routes.
pub proof fn contents_settle_the_handle(h: SwitchHandle, r: HandleRoute)
    ensures
        h@.mode == h.mode,
        h@.if_index == h.if_index,
        h@.if_luid == h.if_luid,
        h.destination_prefix matches Some(s) ==> h@.destination_prefix == Some(s@),
        h.destination_prefix is None ==> h@.destination_prefix is None,
        h@.next_hop == h.next_hop,
        h.adapter_id matches Some(s) ==> h@.adapter_id == Some(s@),
        h.adapter_id is None ==> h@.adapter_id is None,
        h@.extra_routes.len() == h.extra_routes@.len(),
        forall|i: int|
            0 <= i < h.extra_routes@.len() ==> #[trigger] h@.extra_routes[i] == h.extra_routes@[i]@,
        r@.destination_prefix == r.destination_prefix@,
        r@.if_index == r.if_index,
        r@.if_luid == r.if_luid,
        handle_view(Some(h)) == Some(h@),
        handle_view(None) is None,
{
}

/// The contents of an adapter, and of its state before it was reconfigured, are all that is
/// known of it.
pub proof fn contents_settle_the_adapter(a: AdapterInfo, s: AdapterSnapshot)
    ensures
        a@.id == a.id@,
        a@.name == a.name@,
        a@.kind == a.kind@,
        a.mac matches Some(m) ==> a@.mac == Some(m@),
        a.mac is None ==> a@.mac is None,
        a@.ipv4 == a.ipv4@,
        a@.ipv4_prefixes == a.ipv4_prefixes@,
        a@.gateway == a.gateway@,
        a@.dns == a.dns@,
        a@.is_connected == a.is_connected,
        s@.adapter_id == s.adapter_id@,
        s@.is_dhcp_enabled == s.is_dhcp_enabled,
        s@.static_ipv4 == s.static_ipv4@,
        s@.static_ipv4_mask == s.static_ipv4_mask@,
        s@.gateway == s.gateway@,
        s@.dns == s.dns@,
{
}

/// The contents of an event are what happened, why, and when.
pub proof fn contents_settle_the_event(e: HealthEvent, t: HealthEventType)
    ensures
        e@.event_type == e.event_type@,
        e.reason matches Some(s) ==> e@.reason == Some(s@),
        e.reason is None ==> e@.reason is None,
        e@.at == e.at,
        t matches HealthEventType::ProbeFailed { consecutive_count } ==> t@ == (
        EventTypeView::ProbeFailed { consecutive_count }),
        t is ProbeRecovered ==> t@ is ProbeRecovered,
        t matches HealthEventType::AutoFallbackTriggered { reason } ==> t@ == (
        EventTypeView::AutoFallbackTriggered { reason: reason@ }),
{
}

/// The contents of an answer are its number, its outcome and what the server says of itself.
pub proof fn contents_settle_the_answer(r: RpcResponse, s: String, e: RpcError)
    ensures
        r@.jsonrpc == r.jsonrpc@,
        r@.id == r.id,
        r@.result == r.result@,
        r@.protocol_version == r.protocol_version,
        r.supported_modes matches Some(m) ==> r@.supported_modes == Some(m@),
        r.supported_modes is None ==> r@.supported_modes is None,
        (RpcOutcome::Success { result: s })@ == (OutcomeView::Success { result: s@ }),
        match (RpcOutcome::Failure { error: e })@ {
            OutcomeView::Success { .. } => false,
            OutcomeView::Failure { code, message, data } => {
                &&& code == e.code
                &&& message == e.message@
                &&& e.data matches Some(d) ==> data == Some(d@)
                &&& e.data is None ==> data is None
            },
        },
{
}

/// An error keeps its kind and its text; what a user reads is the text with the kind before
/// it, or the text alone where there is nothing more to say.
pub proof fn message_tells_kind_and_text(s: String)
    ensures
        CoreError::ConfigIncomplete(s)@.message() == "配置未完成："@ + s@,
        CoreError::Network(s)@.message() == "网络操作失败："@ + s@,
        CoreError::Persistence(s)@.message() == "状态持久化失败："@ + s@,
        CoreError::AlreadyEnabled@.message() == "任务冲突：当前已有活动句柄"@,
        CoreError::NotEnabled@.message() == "当前未启用旁路由"@,
        CoreError::Other(s)@.message() == s@,
        CoreError::ConfigIncomplete(s)@ == ErrorView::ConfigIncomplete(s@),
        CoreError::Network(s)@ == ErrorView::Network(s@),
        CoreError::Persistence(s)@ == ErrorView::Persistence(s@),
        CoreError::AlreadyEnabled@ == ErrorView::AlreadyEnabled,
        CoreError::NotEnabled@ == ErrorView::NotEnabled,
        CoreError::Other(s)@ == ErrorView::Other(s@),
{
}

/// Before the user has set anything, no adapter and no router is named, and nothing is
/// enabled.
pub proof fn nothing_is_set_at_first(now: Timestamp)
    ensures
        ({
            let c = ConfigView::initial();
            let rs = RuntimeState::initial(now);
            &&& c.adapter_id.len() == 0
            &&& c.bypass_ip == IpAddr::V4(Ipv4Addr { a: 0, b: 0, c: 0, d: 0 })
            &&& c.switch_mode is RouteOverlay
            &&& c.dns_override is None
            &&& c.subnet_mask is None
            &&& c.static_ip is None
            &&& c.health_check_interval_secs == 5
            &&& c.failure_threshold == 3
            &&& !c.auto_reenable_after_recovery
            &&& c.notifications_enabled
            &&& !rs.is_enabled
            &&& rs.current_mode is None
            &&& rs.health == HealthStatus::Idle
            &&& rs.last_updated == now
        }),
{
}

// ---------------------------------------------------------------------------
// Calls
// ---------------------------------------------------------------------------

/// Whether the server answers the call at once with the outcome.
pub open spec fn answers(h: HandledView, id: u64, outcome: OutcomeView) -> bool {
    h matches HandledView::Respond(r) && r.id == id && r.result == outcome && r.jsonrpc == "2.0"@
        && r.protocol_version == Some(1u32) && r.supported_modes == Some(
        seq![SwitchMode::RouteOverlay, SwitchMode::AdapterReconfig],
    )
}

/// Whether the server refuses the call with the code and the message.
pub open spec fn refuses(h: HandledView, id: u64, code: int, message: Seq<char>) -> bool {
    &&& h matches HandledView::Respond(r)
    &&& answers(h, id, r.result)
    &&& r.result matches OutcomeView::Failure { code: c, message: m, data }
    &&& c == code
    &&& m == message
    &&& data is None
}

/// Whether the server asks the core, and answers the call with what it says.
pub open spec fn asks(h: HandledView, id: u64, call: CallView) -> bool {
    h matches HandledView::Perform { id: x, call: y } && x == id && y == call
}

proof fn lemma_names_differ()
    ensures
        "GetStatus"@ != "GetConfig"@,
        "UpdateConfig"@ != "GetStatus"@ && "UpdateConfig"@ != "GetConfig"@,
        "EnableBypass"@ != "GetStatus"@ && "EnableBypass"@ != "GetConfig"@,
        "EnableBypass"@ != "UpdateConfig"@,
        "DisableBypass"@ != "GetStatus"@ && "DisableBypass"@ != "GetConfig"@,
        "DisableBypass"@ != "UpdateConfig"@ && "DisableBypass"@ != "EnableBypass"@,
        "TestConnectivity"@ != "GetStatus"@ && "TestConnectivity"@ != "GetConfig"@,
        "TestConnectivity"@ != "UpdateConfig"@ && "TestConnectivity"@ != "EnableBypass"@,
        "TestConnectivity"@ != "DisableBypass"@,
        "ListAdapters"@ != "GetStatus"@ && "ListAdapters"@ != "GetConfig"@,
        "ListAdapters"@ != "UpdateConfig"@ && "ListAdapters"@ != "EnableBypass"@,
        "ListAdapters"@ != "DisableBypass"@ && "ListAdapters"@ != "TestConnectivity"@,
        "SubscribeEvents"@ != "GetStatus"@ && "SubscribeEvents"@ != "GetConfig"@,
        "SubscribeEvents"@ != "UpdateConfig"@ && "SubscribeEvents"@ != "EnableBypass"@,
        "SubscribeEvents"@ != "DisableBypass"@ && "SubscribeEvents"@ != "TestConnectivity"@,
        "SubscribeEvents"@ != "ListAdapters"@,
{
    reveal_strlit("GetStatus");
    reveal_strlit("GetConfig");
    reveal_strlit("UpdateConfig");
    reveal_strlit("EnableBypass");
    reveal_strlit("DisableBypass");
    reveal_strlit("TestConnectivity");
    reveal_strlit("ListAdapters");
    reveal_strlit("SubscribeEvents");
    assert("GetStatus"@[3] == 'S' && "GetConfig"@[3] == 'C');
    assert("UpdateConfig"@[0] == 'U' && "EnableBypass"@[0] == 'E');
    assert("DisableBypass"@[0] == 'D' && "TestConnectivity"@[0] == 'T');
    assert("ListAdapters"@[0] == 'L' && "SubscribeEvents"@[0] == 'S');
    assert("GetStatus"@[0] == 'G' && "GetConfig"@[0] == 'G');
}

/// Calls that need nothing but the core go to it, each under its number.
pub proof fn plain_calls_go_to_the_core(req: RpcRequest, config: Result<ConfigView, Seq<char>>)
    ensures
        ({
            let h = handled(req, config);
            &&& req.method@ == "GetStatus"@ ==> asks(h, req.id, CallView::Status)
            &&& req.method@ == "GetConfig"@ ==> asks(h, req.id, CallView::Config)
            &&& req.method@ == "EnableBypass"@ ==> asks(h, req.id, CallView::Enable)
            &&& req.method@ == "DisableBypass"@ ==> asks(h, req.id, CallView::Disable)
            &&& req.method@ == "ListAdapters"@ ==> asks(h, req.id, CallView::ListAdapters)
        }),
{
    lemma_names_differ();
}

/// A new configuration goes to the core as it was sent; one that cannot be read is refused
/// with the reason.
pub proof fn new_configuration_goes_to_the_core(
    req: RpcRequest,
    config: Result<ConfigView, Seq<char>>,
)
    requires
        req.method@ == "UpdateConfig"@,
    ensures
        config matches Ok(c) ==> asks(handled(req, config), req.id, CallView::Update(c)),
        config matches Err(e) ==> refuses(
            handled(req, config),
            req.id,
            -32602,
            "参数不合法: "@ + e,
        ),
{
    lemma_names_differ();
}

/// The address of a probe is a string, or the string under "ip" where the parameters are no
/// string that writes an address; the probe waits for three seconds. Without an address the
/// call is refused.
pub proof fn probe_goes_to_the_address(
    req: RpcRequest,
    config: Result<ConfigView, Seq<char>>,
    ip: IpAddr,
)
    requires
        req.method@ == "TestConnectivity"@,
    ensures
        ({
            let direct = match json_string_of(req.params@) {
                Some(t) => ip_of_text(t),
                None => None,
            };
            let under = match json_member_of(req.params@, "ip"@) {
                Some(m) => match json_string_of(m) {
                    Some(t) => ip_of_text(t),
                    None => None,
                },
                None => None,
            };
            let probe = CallView::Probe { ip, timeout_ms: 3000 };
            let h = handled(req, config);
            &&& direct == Some(ip) ==> asks(h, req.id, probe)
            &&& direct is None && under == Some(ip) ==> asks(h, req.id, probe)
            &&& direct is None && under is None ==> refuses(
                h,
                req.id,
                -32602,
                "需要 IP 地址参数"@,
            )
        }),
{
    lemma_names_differ();
}

/// A subscription is confirmed at once, and a method that there is not is refused by its
/// name.
pub proof fn other_calls_are_answered_at_once(
    req: RpcRequest,
    config: Result<ConfigView, Seq<char>>,
)
    ensures
        req.method@ == "SubscribeEvents"@ ==> answers(
            handled(req, config),
            req.id,
            (OutcomeView::Success { result: "{\"subscribed\":true}"@ }),
        ),
        req.method@ != "SubscribeEvents"@ && req.method@ != "GetStatus"@ && req.method@
            != "GetConfig"@ && req.method@ != "UpdateConfig"@ && req.method@ != "EnableBypass"@
            && req.method@ != "DisableBypass"@ && req.method@ != "TestConnectivity"@
            && req.method@ != "ListAdapters"@ ==> refuses(
            handled(req, config),
            req.id,
            -32601,
            "未知方法: "@ + req.method@,
        ),
{
    lemma_names_differ();
}

/// A name that stands for nothing that the core does is refused, whatever comes with it;
/// subscribing is nothing that the core does.
pub proof fn other_names_are_refused(
    name: Seq<char>,
    ip: Option<IpAddr>,
    config: Result<ConfigView, Seq<char>>,
)
    requires
        name != "GetStatus"@,
        name != "GetConfig"@,
        name != "UpdateConfig"@,
        name != "EnableBypass"@,
        name != "DisableBypass"@,
        name != "TestConnectivity"@,
        name != "ListAdapters"@,
    ensures
        called(name, ip, config) matches CallView::Answer(OutcomeView::Failure {
            code,
            message,
            data,
        }) && code == -32601 && message == "未知方法: "@ + name && data is None,
{
}

/// What the core has done reaches the caller as the result null; what it refuses, as the
/// message and the code that every refusal has.
pub proof fn caller_learns_what_the_core_says(e: ErrorView, code: i32, m: Seq<char>)
    ensures
        received(done_outcome(Ok(()))) == Ok::<Seq<char>, Seq<char>>("null"@),
        received(done_outcome(Err(e))) == Err::<Seq<char>, Seq<char>>(
            e.message() + " (code 1)"@,
        ),
        received(failure(code, m)) == Err::<Seq<char>, Seq<char>>(
            m + " (code "@ + dec_int(code as int) + ")"@,
        ),
{
    reveal_strlit(" (code 1)");
    reveal_strlit(" (code ");
    reveal_strlit(")");
    reveal_with_fuel(dec, 2);
    assert(dec_int(1) =~= seq!['1']);
    assert(e.message() + " (code "@ + dec_int(1) + ")"@ =~= e.message() + " (code 1)"@);
}

/// The caller of a probe learns whether it was answered in time.
pub proof fn caller_learns_whether_the_probe_was_answered(
    r: Result<Option<u32>, CoreError>,
)
    ensures
        truth_of(Some(json_bool(answered(r)))) == Some(r is Ok && r->Ok_0 is Some),
        truth_of(None) is None,
        json_bool(true) == "true"@,
        json_bool(false) == "false"@,
        forall|t: Seq<char>|
            t != "true"@ && t != "false"@ ==> #[trigger] truth_of(Some(t)) is None,
{
    reveal_strlit("true");
    reveal_strlit("false");
    assert("true"@.len() == 4 && "false"@.len() == 5);
}

} // verus!
