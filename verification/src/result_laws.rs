//! What small operations return, for every argument.

use vstd::prelude::*;

use crate::adapters::{
    after_enumeration, current_route_state, dhcp_subkey, position_of, query_dhcp_enabled,
    Enumeration, RouteEntry,
};
use crate::addr::{IpAddr, Ipv4Addr};
use crate::autostart::{save_enabled_to_file, set_run_value, settings_path, RunAction, RunChange};
use crate::display::{
    adapter_display_names, selected_index, show_health, show_latency, FallbackWatch, HealthDisplay,
};
use crate::encoding::{decode_utf16, to_wide, utf16_of};
use crate::error::{CoreError, ErrorView};
use crate::forms::restore_default;
use crate::icon::{arch_dir, compiler_path, find_rc_exe, tools_dir, version_le, Candidate};
use crate::inspector::{
    default_probe_ip, echo_result, enumeration_error, route_state_error, task_error,
    WinNetInspector,
};
use crate::ip_text::ip_text;
use crate::ipc_client::{connectivity_answer, receive, IpcClient};
use crate::ipc_server::{
    core_failure, err, ip_param, ok, operation_outcome, probe_outcome, read_line, serve, write_line,
    Connection, Handled, ServeAction, ServeEvent,
};
use crate::json::json_quoted;
use crate::log_prune::{prune_old_logs, LogFile, Span};
use crate::logs::{cut_time, log_file_name, shown_time, time_of_day, LocalTime};
use crate::netsh::{ensure_dhcp, launch_error, NetshCommand};
use crate::notify::{fallback_body, show_toast, xml_text};
use crate::protocol::{
    adapters_view, bypass_target, supported_modes, AdapterInfo, AdapterSnapshot, AppConfig,
    BypassTarget, HealthStatus, RouteState, RpcNotification, RpcOutcome, RpcRequest, RpcResponse,
    RuntimeState, SwitchMode, Timestamp,
};
use crate::service_host::{on_signal, parse_command, Command, ServiceSignal, SignalAnswer};
use crate::state_store::{
    clear_error, dirs_error, joined, AtomicWrite, JsonRead, StateStore, WriteAction,
};
use crate::text::trimmed;
use crate::text_laws::closed_text_is_read_back;
use crate::tray::{toggle_label, TrayAction, TrayMenu, TrayShown, TrayState};
use crate::ui_state::{after_connect, ConnectStep, UiState};

verus! {

// ---------------------------------------------------------------------------
// Probing and listing
// ---------------------------------------------------------------------------

/// The address to try where none is given is a public one.
pub proof fn public_address_is_tried(ip: IpAddr)
    requires
        call_ensures(default_probe_ip, (), ip),
    ensures
        ip == IpAddr::V4(Ipv4Addr { a: 223, b: 5, c: 5, d: 5 }),
{
}

/// Errors of the network name what failed and why.
pub proof fn network_errors_name_the_cause(
    cause: &str,
    a: CoreError,
    b: CoreError,
    c: CoreError,
    d: CoreError,
)
    requires
        call_ensures(enumeration_error, (cause,), a),
        call_ensures(route_state_error, (cause,), b),
        call_ensures(task_error, (cause,), c),
        call_ensures(launch_error, (cause,), d),
    ensures
        a@ == ErrorView::Network("枚举网卡失败: "@ + cause@),
        b@ == ErrorView::Network("读取路由状态失败: "@ + cause@),
        c@ == ErrorView::Other("任务失败: "@ + cause@),
        d@ == ErrorView::Network("无法启动 netsh: "@ + cause@),
{
}

/// Only IPv4 can be probed, and an IPv4 address is probed as it is.
pub proof fn only_ipv4_is_probed(w: WinNetInspector, ip: IpAddr, r: Result<Ipv4Addr, CoreError>)
    requires
        call_ensures(WinNetInspector::ping_target, (&w, ip), r),
    ensures
        ip matches IpAddr::V4(v) ==> r == Ok::<_, CoreError>(v),
        ip is V6 ==> (r matches Err(e) && e@ == ErrorView::Network("MVP 不支持 IPv6"@)),
{
}

/// A probe is answered only by a reply that reports success.
pub proof fn reply_has_to_report_success(replies: u32, status: u32, ms: u32, r: Option<u32>)
    requires
        call_ensures(echo_result, (replies, status, ms), r),
    ensures
        r is Some <==> replies > 0 && status == 0,
        r matches Some(t) ==> t == ms,
{
}

/// A buffer that is too small is replaced by one of twice the size asked for; any other code
/// ends the listing.
pub proof fn small_buffer_is_doubled(code: u32, size: u32, next: Enumeration)
    requires
        code == 111 ==> size <= 0x7fff_ffff,
        call_ensures(after_enumeration, (code, size), next),
    ensures
        code == 0 ==> next is Ready,
        code == 111 ==> (next matches Enumeration::Retry(n) && n == size + size),
        code != 0 && code != 111 ==> next == Enumeration::Failed(code),
{
}

/// The first adapter with the identifier is the one that is found.
pub proof fn first_adapter_is_found(list: Vec<AdapterInfo>, id: &str, r: Option<usize>, k: int)
    requires
        call_ensures(position_of, (&list, id), r),
        0 <= k < list@.len(),
        list@[k].id@ == id@,
    ensures
        r matches Some(i) && i <= k && list@[i as int].id@ == id@,
{
}

/// The state of the routes is read off the table.
pub proof fn route_state_is_read_off_the_table(rows: Vec<RouteEntry>, id: &str, s: RouteState)
    requires
        call_ensures(current_route_state, (&rows, id), s),
    ensures
        s.default_next_hops@ == crate::adapters::default_hops(rows@),
        s.default_via_bypass == crate::adapters::default_through(rows@, id@),
{
}

/// The setting of DHCP is kept under the adapter's own key; a number says that it is on by
/// not being zero.
pub proof fn dhcp_is_kept_under_the_adapter(
    id: &str,
    key: String,
    n: u32,
    text: Option<Vec<u16>>,
    r: Option<bool>,
)
    requires
        call_ensures(dhcp_subkey, (id,), key),
        call_ensures(query_dhcp_enabled, (Some(n), &text), r),
    ensures
        key@ == r"SYSTEM\CurrentControlSet\Services\Tcpip\Parameters\Interfaces\"@ + id@,
        r == Some(n > 0),
{
}

/// DHCP is turned on unless it is known to be on.
pub proof fn dhcp_is_turned_on_unless_on(iface: &str, on: Option<bool>, c: Option<NetshCommand>)
    requires
        call_ensures(ensure_dhcp, (iface, on), c),
    ensures
        c is None <==> on == Some(true),
        c matches Some(x) ==> crate::reconfig_laws::turns_dhcp_on(x@, iface@, "address"@),
{
}

// ---------------------------------------------------------------------------
// The protocol
// ---------------------------------------------------------------------------

/// The server listens until it is told to stop or cannot set its pipe up; whatever else fails
/// is tried again.
pub proof fn server_goes_on_listening(ev: ServeEvent, a: ServeAction)
    requires
        call_ensures(serve, (ev,), a),
    ensures
        a is Stop <==> ev is Shutdown || ev == ServeEvent::Prepared(false),
        a is Create <==> ev == ServeEvent::Prepared(true) || ev == ServeEvent::Connected(false)
            || ev is Rested,
        a is Accept <==> ev == ServeEvent::Created(true),
        a is SpawnAndCreate <==> ev == ServeEvent::Connected(true),
        ev == ServeEvent::Created(false) ==> a == (ServeAction::Rest { secs: 1 }),
{
}

/// An outcome is the result, or the code and the message.
pub proof fn outcome_is_result_or_message(
    code: i32,
    m: &str,
    a: RpcOutcome,
    text: String,
    b: RpcOutcome,
    c: RpcOutcome,
)
    requires
        call_ensures(err, (code, m), a),
        call_ensures(ok, (Ok(text),), b),
        call_ensures(ok, (Err(text),), c),
    ensures
        a matches RpcOutcome::Failure { error } && error.code == code && error.message@ == m@
            && error.data is None,
        b matches RpcOutcome::Success { result } && result@ == text@,
        c matches RpcOutcome::Failure { error } && error.code == 1 && error.message@
            == "序列化失败: "@ + text@,
{
}

/// What the core has done is answered with null, and what it refuses with its message.
pub proof fn core_is_quoted(
    e: CoreError,
    a: RpcOutcome,
    b: RpcOutcome,
    c: RpcOutcome,
    code: i32,
)
    requires
        call_ensures(core_failure, (&e,), a),
        call_ensures(operation_outcome, (&Err(e),), b),
        call_ensures(operation_outcome, (&Ok(()),), c),
        call_ensures(CoreError::app_error_code, (&e,), code),
    ensures
        a matches RpcOutcome::Failure { error } && error.code == 1 && error.message@
            == e@.message(),
        b matches RpcOutcome::Failure { error } && error.code == 1 && error.message@
            == e@.message(),
        c matches RpcOutcome::Success { result } && result@ == "null"@,
        code == 1,
{
}

/// A probe is answered with whether there was a reply in time.
pub proof fn probe_is_answered_with_a_truth_value(
    ms: u32,
    e: CoreError,
    a: RpcOutcome,
    b: RpcOutcome,
    c: RpcOutcome,
)
    requires
        call_ensures(probe_outcome, (&Ok(Some(ms)),), a),
        call_ensures(probe_outcome, (&Ok(None),), b),
        call_ensures(probe_outcome, (&Err(e),), c),
    ensures
        a matches RpcOutcome::Success { result } && result@ == "true"@,
        b matches RpcOutcome::Success { result } && result@ == "false"@,
        c matches RpcOutcome::Success { result } && result@ == "false"@,
{
}

/// A message is sent as a line of its own; blank lines carry none.
pub proof fn message_is_a_line(text: &str, line: String, raw: &str, read: Option<String>)
    requires
        call_ensures(write_line, (text,), line),
        call_ensures(read_line, (raw,), read),
    ensures
        line@ == text@ + seq!['\n'],
        read is None <==> trimmed(raw@).len() == 0,
        read matches Some(t) ==> t@ == trimmed(raw@),
{
    assert(text@.push('\n') =~= text@ + seq!['\n']);
}

/// A client that subscribes is told of events from then on, and no other client is.
pub proof fn subscribed_client_is_told(
    fresh: Connection,
    c: &mut Connection,
    req: RpcRequest,
    config: Result<AppConfig, String>,
    h: Handled,
    json: String,
    n: Option<RpcNotification>,
)
    requires
        call_ensures(Connection::new, (), fresh),
        call_ensures(Connection::handle_connection, (c, Ok(req), config), h),
        call_ensures(Connection::on_event, (&*final(c), json), n),
    ensures
        !fresh.subscribed,
        req.method@ == "SubscribeEvents"@ ==> n is Some,
        req.method@ != "SubscribeEvents"@ ==> (n is Some <==> old(c).subscribed),
        n matches Some(x) ==> x.jsonrpc@ == "2.0"@ && x.method@ == "EventPush"@ && x.params@
            == json@,
        h is Respond || h is Perform,
{
}

/// What is no request is passed over.
pub proof fn what_is_no_request_is_passed_over(
    c: &mut Connection,
    e: String,
    config: Result<AppConfig, String>,
    h: Handled,
)
    requires
        call_ensures(Connection::handle_connection, (c, Err(e), config), h),
    ensures
        h is Nothing,
        *final(c) == *old(c),
{
}

/// A client numbers its calls one after the other, beginning with one.
pub proof fn calls_are_numbered(
    fresh: IpcClient,
    c: &mut IpcClient,
    name: &str,
    params: String,
    a: RpcRequest,
    d: &mut IpcClient,
    b: RpcRequest,
)
    requires
        call_ensures(IpcClient::new, (), fresh),
        old(c).next_id < u64::MAX,
        old(d).next_id < u64::MAX,
        call_ensures(IpcClient::request, (c, name, params), a),
        call_ensures(IpcClient::plain_request, (d, name), b),
    ensures
        fresh.next_id == 1,
        a.id == old(c).next_id,
        final(c).next_id == a.id + 1,
        a.jsonrpc@ == "2.0"@ && a.method@ == name@ && a.params@ == params@,
        b.id == old(d).next_id,
        final(d).next_id == b.id + 1,
        b.jsonrpc@ == "2.0"@ && b.method@ == name@ && b.params@ == "null"@,
{
}

/// The server reads the very address that the client asks about.
pub proof fn server_probes_what_the_client_asks(c: &mut IpcClient, ip: IpAddr, r: RpcRequest)
    requires
        old(c).next_id < u64::MAX,
        call_ensures(IpcClient::test_connectivity, (c, ip), r),
    ensures
        r.method@ == "TestConnectivity"@,
        r.params@ == json_quoted(ip_text(ip)),
        ip_param(r.params@) == Some(ip),
        r.id == old(c).next_id,
        final(c).next_id == r.id + 1,
{
}

/// An answer is the result, or the message with its code; a server that has gone is told
/// apart.
pub proof fn answer_is_result_or_message(
    line: &str,
    o: RpcOutcome,
    e: String,
    a: Result<String, String>,
    b: Result<String, String>,
)
    requires
        call_ensures(receive, (line, Ok(o)), a),
        call_ensures(receive, (line, Err(e)), b),
    ensures
        line@.len() == 0 ==> (a matches Err(x) && x@ == "连接已关闭"@) && (b matches Err(x) && x@
            == "连接已关闭"@),
        line@.len() > 0 ==> (b matches Err(x) && x@ == e@),
        line@.len() > 0 ==> match o {
            RpcOutcome::Success { result } => a matches Ok(x) && x@ == result@,
            RpcOutcome::Failure { error } => a matches Err(x) && x@ == error.message@
                + " (code "@ + crate::number::dec_int(error.code as int) + ")"@,
        },
{
}

/// Whether an address can be reached is read off the result.
pub proof fn reachability_is_read_off(json: &str, r: Option<bool>)
    requires
        call_ensures(connectivity_answer, (json,), r),
    ensures
        r == Some(true) <==> json@ == "true"@,
        r == Some(false) <==> json@ == "false"@,
{
    reveal_strlit("true");
    reveal_strlit("false");
    assert("true"@.len() == 4 && "false"@.len() == 5);
}

/// Every answer says what the server can do.
pub proof fn answer_says_what_the_server_can(
    id: u64,
    o: RpcOutcome,
    r: RpcResponse,
    m: Vec<SwitchMode>,
)
    requires
        call_ensures(RpcResponse::answer, (id, o), r),
        call_ensures(supported_modes, (), m),
    ensures
        r.id == id,
        r.result@ == o@,
        r.jsonrpc@ == "2.0"@,
        r.protocol_version == Some(1u32),
        r.supported_modes matches Some(x) && x@ == m@,
        m@ == seq![SwitchMode::RouteOverlay, SwitchMode::AdapterReconfig],
{
}

/// The target of a configuration, and the state before anything is enabled.
pub proof fn target_and_state_are_made_of_what_is_given(
    c: AppConfig,
    t: BypassTarget,
    now: Timestamp,
    rs: RuntimeState,
)
    requires
        call_ensures(bypass_target, (&c,), t),
        call_ensures(RuntimeState::default_at, (now,), rs),
    ensures
        t.adapter_id@ == c.adapter_id@,
        t.bypass_ip == c.bypass_ip,
        t.dns is Some == c.dns_override is Some,
        t.dns is Some ==> t.dns->0@ == c.dns_override->0@,
        t.subnet_mask == c.subnet_mask,
        t.static_ip == c.static_ip,
        !rs.is_enabled && rs.current_mode is None && rs.health is Idle && rs.last_updated == now,
{
}

/// Restoring the defaults keeps the adapter alone.
pub proof fn defaults_keep_the_adapter(c: AppConfig, d: AppConfig)
    requires
        call_ensures(restore_default, (&c,), d),
    ensures
        d.adapter_id@ == c.adapter_id@,
        d.bypass_ip == IpAddr::V4(Ipv4Addr { a: 0, b: 0, c: 0, d: 0 }),
        d.switch_mode is RouteOverlay,
        d.dns_override is None,
        d.subnet_mask is None,
        d.static_ip is None,
        d.health_check_interval_secs == 5,
        d.failure_threshold == 3,
        !d.auto_reenable_after_recovery,
        d.notifications_enabled,
{
}

// ---------------------------------------------------------------------------
// Storage
// ---------------------------------------------------------------------------

/// A store keeps its files in its own directory, and its logs below it.
pub proof fn store_keeps_files_in_its_directory(
    dir: String,
    s: StateStore,
    file: &str,
    p: String,
    logs: String,
    usual: StateStore,
    base: &str,
)
    requires
        call_ensures(StateStore::new, (dir,), s),
        call_ensures(StateStore::path, (&s, file), p),
        call_ensures(StateStore::ensure_dirs, (&s,), logs),
        call_ensures(StateStore::default, (), usual),
        call_ensures(StateStore::base_dir, (&usual,), base),
    ensures
        p@ == joined(dir@, file@),
        logs@ == joined(dir@, "logs"@),
        base@ == r"C:\ProgramData\BypassTool"@,
{
}

/// A file that is missing or does not hold what it should counts as nothing; one that cannot
/// be read is an error that names it.
pub proof fn corrupt_files_count_as_nothing<T>(
    s: StateStore,
    file: &str,
    read: JsonRead<T>,
    r: Result<Option<T>, CoreError>,
)
    requires
        call_ensures(StateStore::read_json::<T>, (&s, file, read), r),
    ensures
        read is Missing || read is Corrupt ==> r == Ok::<_, CoreError>(None::<T>),
        read matches JsonRead::Parsed(v) ==> r == Ok::<_, CoreError>(Some(v)),
        read matches JsonRead::Unreadable(cause) ==> (r matches Err(e) && e@
            == ErrorView::Persistence(
            "读取 "@ + joined(s@, file@) + " 失败: "@ + cause@,
        )),
{
}

/// What is stored is what is loaded; without it, the initial values are.
pub proof fn stored_values_are_loaded(
    s: StateStore,
    c: JsonRead<AppConfig>,
    x: Result<AppConfig, CoreError>,
    t: JsonRead<RuntimeState>,
    now: Timestamp,
    y: Result<RuntimeState, CoreError>,
    b: JsonRead<AdapterSnapshot>,
    z: Result<Option<AdapterSnapshot>, CoreError>,
)
    requires
        call_ensures(StateStore::load_config, (&s, c), x),
        call_ensures(StateStore::load_runtime, (&s, t, now), y),
        call_ensures(StateStore::load_snapshot, (&s, b), z),
    ensures
        c matches JsonRead::Parsed(v) ==> (x matches Ok(k) && k@ == v@),
        c is Missing || c is Corrupt ==> (x matches Ok(k) && k.adapter_id@.len() == 0 && k.bypass_ip
            == IpAddr::V4(Ipv4Addr { a: 0, b: 0, c: 0, d: 0 }) && k.switch_mode is RouteOverlay),
        c is Unreadable ==> x is Err,
        t matches JsonRead::Parsed(v) ==> y == Ok::<_, CoreError>(v),
        t is Missing || t is Corrupt ==> (y matches Ok(k) && !k.is_enabled && k.current_mode is None
            && k.health is Idle && k.last_updated == now),
        t is Unreadable ==> y is Err,
        b matches JsonRead::Parsed(v) ==> (z matches Ok(Some(k)) && k@ == v@),
        b is Missing || b is Corrupt ==> z == Ok::<_, CoreError>(None::<AdapterSnapshot>),
        b is Unreadable ==> z is Err,
{
}

/// Whether writing a file of a store has begun: the directory comes first.
pub open spec fn begins_to_write(
    r: Result<(AtomicWrite, WriteAction), CoreError>,
    dir: Seq<char>,
    file: Seq<char>,
    text: Seq<char>,
) -> bool {
    &&& r matches Ok(p)
    &&& p.0.dir@ == dir
    &&& p.0.target@ == joined(dir, file)
    &&& p.0.temp@ == joined(dir, "."@ + file + ".tmp"@)
    &&& p.0.text@ == text
    &&& p.0.phase is CreatingDir
    &&& p.1 matches WriteAction::CreateDir(d) && d@ == dir
}

/// Each kind of value is written to its own file.
pub proof fn values_are_written_to_their_files(
    s: StateStore,
    text: String,
    x: Result<(AtomicWrite, WriteAction), CoreError>,
    y: Result<(AtomicWrite, WriteAction), CoreError>,
    z: Result<(AtomicWrite, WriteAction), CoreError>,
    file: &str,
    w: Result<(AtomicWrite, WriteAction), CoreError>,
)
    requires
        call_ensures(StateStore::save_config, (&s, Ok(text)), x),
        call_ensures(StateStore::save_runtime, (&s, Ok(text)), y),
        call_ensures(StateStore::save_snapshot, (&s, Ok(text)), z),
        call_ensures(StateStore::atomic_write_json, (&s, file, Ok(text)), w),
    ensures
        begins_to_write(x, s@, "config.json"@, text@),
        begins_to_write(y, s@, "runtime_state.json"@, text@),
        begins_to_write(z, s@, "adapter_snapshot.json"@, text@),
        begins_to_write(w, s@, file@, text@),
{
}

/// What cannot be turned into text is not written, and that is said.
pub proof fn unwritable_values_are_reported(
    s: StateStore,
    cause: String,
    x: Result<(AtomicWrite, WriteAction), CoreError>,
    y: Result<(AtomicWrite, WriteAction), CoreError>,
    z: Result<(AtomicWrite, WriteAction), CoreError>,
)
    requires
        call_ensures(StateStore::save_config, (&s, Err(cause)), x),
        call_ensures(StateStore::save_runtime, (&s, Err(cause)), y),
        call_ensures(StateStore::save_snapshot, (&s, Err(cause)), z),
    ensures
        x matches Err(e) && e@ == ErrorView::Persistence("序列化失败: "@ + cause@),
        y matches Err(e) && e@ == ErrorView::Persistence("序列化失败: "@ + cause@),
        z matches Err(e) && e@ == ErrorView::Persistence("序列化失败: "@ + cause@),
{
}

/// A backup is removed if there is one; what fails is named.
pub proof fn backup_is_removed_if_there_is_one(
    s: StateStore,
    exists: bool,
    p: Option<String>,
    cause: &str,
    a: CoreError,
    b: CoreError,
)
    requires
        call_ensures(StateStore::clear_snapshot, (&s, exists), p),
        call_ensures(dirs_error, (cause,), a),
        call_ensures(clear_error, (cause,), b),
    ensures
        p is Some <==> exists,
        p matches Some(x) ==> x@ == joined(s@, "adapter_snapshot.json"@),
        a@ == ErrorView::Persistence("创建数据目录失败: "@ + cause@),
        b@ == ErrorView::Persistence("删除快照失败: "@ + cause@),
{
}

/// Settings are kept below the directory of the application data, if that is known.
pub proof fn settings_are_kept_below_the_application_data(
    dir: Option<String>,
    on: bool,
    p: Option<String>,
    r: Result<(String, String), String>,
)
    requires
        call_ensures(settings_path, (&dir,), p),
        call_ensures(save_enabled_to_file, (&dir, on), r),
    ensures
        dir matches Some(d) ==> {
            let path = joined(joined(d@, "RouteTool"@), "ui_settings.json"@);
            &&& p matches Some(x) && x@ == path
            &&& r matches Ok(y) && y.0@ == path && crate::autostart::chosen_in(Some(y.1@)) == Some(
                on,
            )
        },
        dir is None ==> p is None && (r matches Err(e) && e@ == "无法定位 APPDATA 目录"@),
{
}

/// Changing the registry value begins with its key: the command is written, closed with a
/// zero, or the value deleted.
pub proof fn changing_the_value_begins_with_its_key(
    on: bool,
    data: &str,
    r: (RunChange, RunAction),
)
    requires
        call_ensures(set_run_value, (on, data), r),
    ensures
        r.0.phase is Opening,
        r.1 is Open,
        r.0.bytes is Some <==> on,
        r.0.bytes matches Some(b) ==> b@.len() == 2 * (utf16_of(data@).len() + 1),
{
}

/// Text is handed to the system in UTF-16 with a closing zero, and read back up to it.
pub proof fn text_is_closed_with_a_zero(s: &str, w: Vec<u16>, t: String)
    requires
        call_ensures(to_wide, (s,), w),
        w@.len() <= usize::MAX,
        !s@.contains('\0'),
        call_ensures(decode_utf16, (&w, (w@.len() - 1) as usize), t),
    ensures
        w@.len() > 0 && w@.last() == 0,
        t@ == s@,
{
    let e = Seq::<u16>::empty();
    closed_text_is_read_back(s@, e);
    crate::encoding::utf16_reads_back(s@);
    assert(w@.take(w@.len() - 1) =~= utf16_of(s@));
}

// ---------------------------------------------------------------------------
// The window
// ---------------------------------------------------------------------------

/// Adapters are listed by their names, one for one; the selected one is where it stands, or
/// nowhere.
pub proof fn adapters_are_listed_one_for_one(
    list: Vec<AdapterInfo>,
    names: Vec<String>,
    id: &str,
    index: i32,
    k: int,
)
    requires
        list@.len() <= 0x7fff_ffff,
        call_ensures(adapter_display_names, (&list,), names),
        call_ensures(selected_index, (&list, id), index),
        0 <= k < list@.len(),
    ensures
        names@.len() == list@.len(),
        list@[k].is_connected ==> names@[k]@ == list@[k].name@,
        !list@[k].is_connected ==> names@[k]@ == list@[k].name@ + "（未连接）"@,
        crate::switch_laws::is_first(adapters_view(list@), k, id@) ==> index == k,
        (forall|j: int| 0 <= j < list@.len() ==> (#[trigger] list@[j]).id@ != id@) ==> index == -1,
{
    let v = adapters_view(list@);
    let shown = crate::text::texts_view(names@);
    assert(shown.len() == list@.len());
    assert(shown[k] == names@[k]@);
    if crate::switch_laws::is_first(v, k, id@) {
        crate::switch_laws::lemma_first_is_found(v, k, id@);
        assert(v[k] == list@[k]@);
        if index < k {
            assert(v[index as int] == list@[index as int]@);
            assert(v[index as int].id != id@);
        } else if index > k {
            assert(list@[k].id@ != id@);
        }
    }
    if forall|j: int| 0 <= j < list@.len() ==> (#[trigger] list@[j]).id@ != id@ {
        assert forall|j: int| 0 <= j < v.len() implies (#[trigger] v[j]).id != id@ by {
            assert(list@[j].id@ != id@);
        }
        crate::switch_laws::lemma_none_is_found(v, id@);
    }
}

/// A state of health is shown by its text, its color, and whether the bypass was given up; a
/// round trip that is not known is minus one.
pub proof fn health_is_shown_by_text_and_color(
    h: HealthStatus,
    d: HealthDisplay,
    ms: Option<u32>,
    shown: i32,
)
    requires
        call_ensures(show_health, (h,), d),
        call_ensures(show_latency, (ms,), shown),
    ensures
        d.is_fallback <==> h is Fallback,
        d.tray is Fallback <==> h is Fallback,
        d.tray is Bypass <==> h is Healthy || h is Degraded,
        h matches HealthStatus::Degraded { consecutive_failures } ==> d.text@
            == "探测中（失败 "@ + crate::number::dec(consecutive_failures as nat) + " 次）"@,
        h is Idle ==> d.text@ == "直连（未启用）"@,
        h is Healthy ==> d.text@ == "旁路由生效"@,
        h is Fallback ==> d.text@ == "异常已自动回退"@,
        h is Recovered ==> d.text@ == "检测恢复"@,
        ms is None ==> shown == -1,
        ms matches Some(n) ==> (n < 0x8000_0000 ==> shown == n),
{
}

/// The user is told at the look that first finds the bypass given up.
pub proof fn watch_tells_of_the_change(
    fresh: FallbackWatch,
    w: &mut FallbackWatch,
    now: bool,
    wanted: bool,
    told: bool,
)
    requires
        call_ensures(FallbackWatch::new, (), fresh),
        call_ensures(FallbackWatch::observe, (w, now, wanted), told),
    ensures
        !fresh.was_fallback,
        told <==> now && !old(w).was_fallback && wanted,
        final(w).was_fallback == now,
{
}

/// The tray is redrawn exactly if what it shows has changed.
pub proof fn tray_is_redrawn_on_change(
    fresh: TrayShown,
    t: &mut TrayShown,
    state: TrayState,
    on: bool,
    changed: bool,
)
    requires
        call_ensures(TrayShown::initial, (), fresh),
        call_ensures(TrayShown::update_state, (t, state, on), changed),
    ensures
        fresh.state is Direct && !fresh.is_enabled,
        final(t).state == state && final(t).is_enabled == on,
        !changed <==> old(t).state == state && old(t).is_enabled == on,
{
}

/// The menu offers the other state, and an item that is chosen stands for its action.
pub proof fn menu_offers_the_other_state(
    on: &'static str,
    off: &'static str,
    m: TrayMenu,
    id: String,
    a: Option<TrayAction>,
    none: Option<TrayAction>,
)
    requires
        call_ensures(toggle_label, (true,), off),
        call_ensures(toggle_label, (false,), on),
        call_ensures(TrayMenu::poll_event, (&m, &Some(id)), a),
        call_ensures(TrayMenu::poll_event, (&m, &None), none),
    ensures
        off@ == "禁用旁路由"@,
        on@ == "启用旁路由"@,
        a == m.action_of(id@),
        none is None,
{
}

/// Connecting is tried ten times, half a second apart.
pub proof fn connecting_is_tried_ten_times(attempt: u32, ok: bool, next: ConnectStep)
    requires
        call_ensures(after_connect, (attempt, ok), next),
    ensures
        ok ==> next is Connected,
        !ok && attempt < 10 ==> next == (ConnectStep::Retry { pause_ms: 500 }),
        !ok && attempt >= 10 ==> next is GiveUp,
{
}

/// The program begins unconnected with nothing known, and says whether it is connected.
pub proof fn program_begins_unconnected(fresh: UiState, s: UiState, text: &'static str)
    requires
        call_ensures(UiState::new, (), fresh),
        call_ensures(UiState::service_text, (&s,), text),
    ensures
        !fresh.connected,
        fresh.adapters@.len() == 0,
        fresh.config.adapter_id@.len() == 0,
        s.connected ==> text@ == "服务运行中"@,
        !s.connected ==> text@ == "服务断开"@,
{
    assert(fresh@.adapters.len() == fresh.adapters@.len());
}

/// An adapter that is in the list can be selected, and no other; an empty list is not taken
/// over.
pub proof fn listed_adapter_can_be_selected(
    s: &mut UiState,
    index: i32,
    found: bool,
    u: &mut UiState,
    list: Vec<AdapterInfo>,
    taken: bool,
)
    requires
        call_ensures(UiState::select_adapter, (s, index), found),
        call_ensures(UiState::refresh_adapters, (u, list), taken),
    ensures
        found <==> 0 <= index < old(s).adapters@.len(),
        found ==> final(s).config.adapter_id@ == old(s).adapters@[index as int].id@,
        !found ==> final(s)@ == old(s)@,
        final(s).connected == old(s).connected,
        taken <==> list@.len() > 0,
        taken ==> final(u)@.adapters == adapters_view(list@) && final(u)@.config == old(u)@.config,
        !taken ==> final(u)@ == old(u)@,
{
    assert(old(s)@.adapters.len() == old(s).adapters@.len());
    if found {
        assert(old(s)@.adapters[index as int] == old(s).adapters@[index as int]@);
    }
}

/// A new connection is kept only if everything that was asked for has come.
pub proof fn new_connection_is_kept_if_all_has_come(
    s: &mut UiState,
    status: Option<RuntimeState>,
    config: Option<AppConfig>,
    adapters: Option<Vec<AdapterInfo>>,
    refill: bool,
)
    requires
        call_ensures(UiState::resync, (s, &status, config, adapters), refill),
    ensures
        refill <==> status is Some && config is Some && adapters is Some,
        final(s).connected == refill,
        refill ==> final(s).config@ == config->0@ && final(s)@.adapters == adapters_view(
            adapters->0@,
        ),
        !refill ==> final(s)@.config == old(s)@.config && final(s)@.adapters == old(s)@.adapters,
{
}

// ---------------------------------------------------------------------------
// Logs, notifications and the service
// ---------------------------------------------------------------------------

/// The log of a day is named after it, and logs are kept for a week.
pub proof fn log_is_named_after_its_day(prefix: &str, day: &str, name: String, s: Span)
    requires
        call_ensures(log_file_name, (prefix, day), name),
        call_ensures(Span::log_retention, (), s),
    ensures
        name@ == prefix@ + ".log."@ + day@,
        s.secs == 604_800 && s.nanos == 0,
{
}

/// A directory that cannot be read holds no logs to delete.
pub proof fn unreadable_directory_holds_no_logs(prefix: &str, s: Span, out: Vec<usize>)
    requires
        call_ensures(prune_old_logs, (&None::<Vec<LogFile>>, prefix, s), out),
    ensures
        out@.len() == 0,
{
}

/// A time is shown by the clock where it is a moment, and cut out where it is none.
pub proof fn time_is_shown_by_the_clock_or_cut_out(
    raw: &str,
    secs: i64,
    nanos: u32,
    offset: i32,
    a: String,
    b: String,
)
    requires
        call_ensures(shown_time, (raw, Some((secs, nanos, offset))), a),
        call_ensures(shown_time, (raw, None::<LocalTime>), b),
    ensures
        a@ == time_of_day(secs as int, nanos as int, offset as int),
        b@ == cut_time(raw@),
{
}

/// The notification tells the time of day, and keeps its shape whatever it says.
pub proof fn notification_tells_the_time(
    time: &str,
    body: String,
    title: &str,
    text: &str,
    script: String,
)
    requires
        call_ensures(fallback_body, (time,), body),
        call_ensures(show_toast, (title, text), script),
    ensures
        body@ == "旁路由异常，已自动切回直连"@ + "（"@ + time@ + "）"@,
        script@ == crate::notify::SCRIPT_HEAD@ + xml_text(title@) + crate::notify::SCRIPT_MIDDLE@
            + xml_text(text@) + crate::notify::SCRIPT_TAIL@,
{
}

/// The first argument after the program itself settles what is done; a service stops when it
/// is told to or the system goes down, and knows every signal but others.
pub proof fn service_does_as_it_is_told(
    args: Vec<String>,
    c: Command,
    s: ServiceSignal,
    a: SignalAnswer,
)
    requires
        call_ensures(parse_command, (&args,), c),
        call_ensures(on_signal, (s,), a),
    ensures
        args@.len() <= 1 ==> c is Service,
        args@.len() > 1 && args@[1]@ == "--install-service"@ ==> c is Install,
        args@.len() > 1 && args@[1]@ == "--uninstall-service"@ ==> c is Uninstall,
        args@.len() > 1 && args@[1]@ == "--console"@ ==> c is Console,
        a.stop <==> s is Stop || s is Shutdown,
        !a.known <==> s is Other,
{
    reveal_strlit("--install-service");
    reveal_strlit("--uninstall-service");
    reveal_strlit("--console");
    assert("--install-service"@.len() == 17);
    assert("--uninstall-service"@.len() == 19);
    assert("--console"@.len() == 9);
}

/// The compiler is looked for below the tools of a version and of an architecture.
pub proof fn compiler_is_below_the_tools(
    bin: &str,
    arch: &str,
    p: String,
    kits: &str,
    major: &str,
    d: String,
    name: String,
    x: &'static str,
    none: &'static str,
)
    requires
        call_ensures(compiler_path, (bin, arch), p),
        call_ensures(tools_dir, (kits, major), d),
        call_ensures(arch_dir, (&Some(name),), x),
        call_ensures(arch_dir, (&None,), none),
    ensures
        p@ == joined(joined(bin@, arch@), "rc.exe"@),
        d@ == joined(joined(kits@, major@), "bin"@),
        name@ == "x86_64"@ || name@ == "aarch64"@ ==> x@ == "x64"@,
        name@ != "x86_64"@ && name@ != "aarch64"@ ==> x@ == "x86"@,
        none@ == "x86"@,
{
}

/// The newest compiler is picked, the first of those as new.
pub proof fn newest_compiler_is_picked(found: Vec<Candidate>, best: Option<usize>, k: int)
    requires
        call_ensures(find_rc_exe, (&found,), best),
    ensures
        best is None <==> found@.len() == 0,
        best matches Some(b) ==> {
            &&& b < found@.len()
            &&& 0 <= k < found@.len() ==> version_le(
                found@[k].version@,
                found@[b as int].version@,
            )
            &&& 0 <= k < b ==> !version_le(found@[b as int].version@, found@[k].version@)
        },
{
    assert(0 <= k < found@.len() ==> found@[k] == found@[k]);
}

} // verus!
