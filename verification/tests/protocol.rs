use route_tool::addr::{IpAddr, Ipv4Addr};
use route_tool::error::CoreError;
use route_tool::ipc_client::{connectivity_answer, receive, IpcClient};
use route_tool::ipc_server::{
    core_failure, dispatch, ok, operation_outcome, pick_ip, probe_outcome, read_ip_param,
    read_line, serve, write_line, Call, Connection, Handled, ServeAction, ServeEvent, PIPE_SDDL,
};
use route_tool::json::bool_text;
use route_tool::method;
use route_tool::protocol::{
    AppConfig, RpcError, RpcOutcome, RpcRequest, RpcResponse, SwitchMode, APP_ERROR,
    INTERNAL_ERROR, INVALID_PARAMS, INVALID_REQUEST, METHOD_NOT_FOUND, PARSE_ERROR, PIPE_NAME,
    PROTOCOL_VERSION,
};

fn request(method: &str, params: &str) -> RpcRequest {
    RpcRequest {
        jsonrpc: "2.0".to_string(),
        id: 7,
        method: method.to_string(),
        params: params.to_string(),
    }
}

fn no_config() -> Result<AppConfig, String> {
    Err("missing field".to_string())
}

fn failure(o: RpcOutcome) -> (i32, String) {
    match o {
        RpcOutcome::Success { result } => panic!("{result}"),
        RpcOutcome::Failure { error } => (error.code, error.message),
    }
}

fn success(o: RpcOutcome) -> String {
    match o {
        RpcOutcome::Success { result } => result,
        RpcOutcome::Failure { error } => panic!("{}", error.message),
    }
}

#[test]
fn error_code_constants_match_json_rpc_spec() {
    assert_eq!(PARSE_ERROR, -32700);
    assert_eq!(INVALID_REQUEST, -32600);
    assert_eq!(METHOD_NOT_FOUND, -32601);
    assert_eq!(INVALID_PARAMS, -32602);
    assert_eq!(INTERNAL_ERROR, -32603);
    assert_eq!(APP_ERROR, 1);
}

#[test]
fn pipe_security_attributes_grants_authenticated_users() {
    assert!(PIPE_SDDL.contains("AU"));
    assert!(PIPE_SDDL.contains("SY"));
    assert!(PIPE_SDDL.contains("BA"));
    assert_eq!(PIPE_NAME, r"\\.\pipe\BypassToolCore");
}

#[test]
fn rpc_response_carries_capabilities() {
    let r = RpcResponse::default();
    assert_eq!(r.jsonrpc, "2.0");
    assert_eq!(r.id, 0);
    assert_eq!(r.protocol_version, Some(PROTOCOL_VERSION));
    assert_eq!(
        r.supported_modes,
        Some(vec![SwitchMode::RouteOverlay, SwitchMode::AdapterReconfig])
    );
    assert_eq!(success(r.result), "null");

    let r = RpcResponse::default();
    let names: Vec<serde_json::Value> = r
        .supported_modes
        .iter()
        .flatten()
        .map(|m| match m {
            SwitchMode::RouteOverlay => "routeoverlay".into(),
            SwitchMode::AdapterReconfig => "adapterreconfig".into(),
        })
        .collect();
    let mut object = serde_json::Map::new();
    object.insert("protocol_version".to_string(), r.protocol_version.into());
    object.insert("supported_modes".to_string(), names.into());
    let text = match serde_json::to_string(&object) {
        Ok(t) => t,
        Err(e) => panic!("{e}"),
    };
    assert_eq!(
        text,
        "{\"protocol_version\":1,\"supported_modes\":[\"routeoverlay\",\"adapterreconfig\"]}"
    );
}

#[test]
fn connectivity_answers_are_read() {
    assert_eq!(connectivity_answer("true"), Some(true));
    assert_eq!(connectivity_answer("false"), Some(false));
    assert_eq!(connectivity_answer("null"), None);
    assert_eq!(connectivity_answer("\"true\""), None);
}

#[test]
fn default_configuration() {
    let c = AppConfig::default();
    assert_eq!(c.health_check_interval_secs, 5);
    assert_eq!(c.failure_threshold, 3);
    assert!(!c.auto_reenable_after_recovery);
    assert!(c.notifications_enabled);
    assert_eq!(c.switch_mode, SwitchMode::RouteOverlay);
    assert_eq!(c.bypass_ip, IpAddr::V4(Ipv4Addr::new(0, 0, 0, 0)));
}

#[test]
fn error_messages() {
    let s = || "x".to_string();
    assert_eq!(CoreError::ConfigIncomplete(s()).message(), "配置未完成：x");
    assert_eq!(CoreError::Network(s()).message(), "网络操作失败：x");
    assert_eq!(CoreError::Persistence(s()).message(), "状态持久化失败：x");
    assert_eq!(
        CoreError::AlreadyEnabled.message(),
        "任务冲突：当前已有活动句柄"
    );
    assert_eq!(CoreError::NotEnabled.message(), "当前未启用旁路由");
    assert_eq!(CoreError::Other(s()).message(), "x");
    assert_eq!(CoreError::NotEnabled.app_error_code(), 1);
    assert_eq!(CoreError::Network(s()).clone().message(), "网络操作失败：x");
}

#[test]
fn methods_are_dispatched() {
    assert!(matches!(
        dispatch(&request(method::GET_STATUS, "null"), no_config()),
        Call::Status
    ));
    assert!(matches!(
        dispatch(&request(method::GET_CONFIG, "null"), no_config()),
        Call::Config
    ));
    assert!(matches!(
        dispatch(&request(method::ENABLE_BYPASS, "null"), no_config()),
        Call::Enable
    ));
    assert!(matches!(
        dispatch(&request(method::DISABLE_BYPASS, "null"), no_config()),
        Call::Disable
    ));
    assert!(matches!(
        dispatch(&request(method::LIST_ADAPTERS, "null"), no_config()),
        Call::ListAdapters
    ));
    assert!(matches!(
        dispatch(
            &request(method::UPDATE_CONFIG, "{}"),
            Ok(AppConfig::default())
        ),
        Call::Update(_)
    ));
    match dispatch(&request(method::UPDATE_CONFIG, "{}"), no_config()) {
        Call::Answer(o) => assert_eq!(
            failure(o),
            (INVALID_PARAMS, "参数不合法: missing field".to_string())
        ),
        _ => panic!("the configuration is missing"),
    }
    match dispatch(&request("Nope", "null"), no_config()) {
        Call::Answer(o) => assert_eq!(
            failure(o),
            (METHOD_NOT_FOUND, "未知方法: Nope".to_string())
        ),
        _ => panic!("there is no such method"),
    }
}

#[test]
fn address_is_read_from_string_or_object() {
    let ip = IpAddr::V4(Ipv4Addr::new(223, 5, 5, 5));
    assert_eq!(read_ip_param("\"223.5.5.5\""), Some(ip));
    assert_eq!(read_ip_param(" { \"ip\" : \"223.5.5.5\" } "), Some(ip));
    assert_eq!(read_ip_param("\"223.\\u0035.5.5\""), Some(ip));
    assert_eq!(read_ip_param("{\"ip\":5}"), None);
    assert_eq!(read_ip_param("{\"ip\":\"nope\"}"), None);
    assert_eq!(read_ip_param("null"), None);
    assert_eq!(read_ip_param("nonsense"), None);
    match dispatch(&request(method::TEST_CONNECTIVITY, "\"223.5.5.5\""), no_config()) {
        Call::Probe { ip: got, timeout_ms } => {
            assert_eq!(got, ip);
            assert_eq!(timeout_ms, 3000);
        }
        _ => panic!("a probe"),
    }
    match dispatch(&request(method::TEST_CONNECTIVITY, "null"), no_config()) {
        Call::Answer(o) => assert_eq!(
            failure(o),
            (INVALID_PARAMS, "需要 IP 地址参数".to_string())
        ),
        _ => panic!("no address"),
    }
    let text = Some("bad".to_string());
    let member = Some("::1".to_string());
    assert!(pick_ip(&text, &member).is_some());
    assert!(pick_ip(&text, &None).is_none());
}

#[test]
fn client_and_server_agree_on_the_address() {
    let mut client = IpcClient::new();
    for text in ["10.0.0.1", "fe80::1", "::ffff:1.2.3.4"] {
        let ip = match route_tool::ip_text::parse_ip(text) {
            Some(ip) => ip,
            None => panic!("an address"),
        };
        let req = client.test_connectivity(ip);
        assert_eq!(req.params, format!("\"{text}\""));
        assert_eq!(req.method, "TestConnectivity");
        assert_eq!(read_ip_param(&req.params), Some(ip));
    }
    assert_eq!(client.next_id, 4);
    let req = client.plain_request(method::GET_STATUS);
    assert_eq!(req.id, 4);
    assert_eq!(req.params, "null");
}

#[test]
fn outcomes_are_answered_and_received() {
    assert_eq!(success(ok(Ok("[1]".to_string()))), "[1]");
    assert_eq!(
        failure(ok(Err("deep".to_string()))),
        (APP_ERROR, "序列化失败: deep".to_string())
    );
    assert_eq!(success(operation_outcome(&Ok(()))), "null");
    assert_eq!(
        failure(operation_outcome(&Err(CoreError::NotEnabled))),
        (1, "当前未启用旁路由".to_string())
    );
    assert_eq!(
        failure(core_failure(&CoreError::Network("x".to_string()))),
        (1, "网络操作失败：x".to_string())
    );
    assert_eq!(success(probe_outcome(&Ok(Some(3)))), "true");
    assert_eq!(success(probe_outcome(&Ok(None))), "false");
    assert_eq!(
        success(probe_outcome(&Err(CoreError::Network("x".to_string())))),
        "false"
    );
    assert_eq!(bool_text(true), "true");

    let outcome = RpcOutcome::Failure {
        error: RpcError {
            code: APP_ERROR,
            message: "配置未完成".to_string(),
            data: None,
        },
    };
    assert_eq!(
        receive("{}\n", Ok(outcome)),
        Err("配置未完成 (code 1)".to_string())
    );
    let outcome = RpcOutcome::Success {
        result: "{}".to_string(),
    };
    assert_eq!(receive("{}\n", Ok(outcome)), Ok("{}".to_string()));
    assert_eq!(
        receive("", Err("eof".to_string())),
        Err("连接已关闭".to_string())
    );
    assert_eq!(
        receive("x", Err("eof".to_string())),
        Err("eof".to_string())
    );
}

#[test]
fn connections_answer_under_the_number_of_the_request() {
    let mut c = Connection::new();
    assert!(c.on_event("{}".to_string()).is_none());
    match c.handle_connection(Ok(request(method::SUBSCRIBE_EVENTS, "null")), no_config()) {
        Handled::Respond(r) => {
            assert_eq!(r.id, 7);
            assert_eq!(success(r.result), "{\"subscribed\":true}");
        }
        _ => panic!("a subscription is answered"),
    }
    match c.on_event("{\"a\":1}".to_string()) {
        Some(n) => {
            assert_eq!(n.jsonrpc, "2.0");
            assert_eq!(n.method, "EventPush");
            assert_eq!(n.params, "{\"a\":1}");
        }
        None => panic!("the client has subscribed"),
    }
    match c.handle_connection(Ok(request("Nope", "null")), no_config()) {
        Handled::Respond(r) => {
            assert_eq!(r.id, 7);
            assert_eq!(failure(r.result).0, METHOD_NOT_FOUND);
        }
        _ => panic!("refused at once"),
    }
    match c.handle_connection(Ok(request(method::ENABLE_BYPASS, "null")), no_config()) {
        Handled::Perform { id, call } => {
            assert_eq!(id, 7);
            assert!(matches!(call, Call::Enable));
        }
        _ => panic!("the core is asked"),
    }
    assert!(matches!(
        c.handle_connection(Err("bad".to_string()), no_config()),
        Handled::Nothing
    ));
    assert!(c.subscribed);
}

#[test]
fn lines_carry_messages() {
    assert_eq!(write_line("{}"), "{}\n");
    assert_eq!(read_line(" {} \r\n"), Some("{}".to_string()));
    assert_eq!(read_line(" \n"), None);
    assert_eq!(read_line(&write_line("{\"a\":1}")), Some("{\"a\":1}".to_string()));
}

#[test]
fn server_keeps_listening() {
    assert_eq!(serve(ServeEvent::Prepared(true)), ServeAction::Create);
    assert_eq!(serve(ServeEvent::Prepared(false)), ServeAction::Stop);
    assert_eq!(serve(ServeEvent::Created(true)), ServeAction::Accept);
    assert_eq!(serve(ServeEvent::Created(false)), ServeAction::Rest { secs: 1 });
    assert_eq!(serve(ServeEvent::Rested), ServeAction::Create);
    assert_eq!(serve(ServeEvent::Connected(true)), ServeAction::SpawnAndCreate);
    assert_eq!(serve(ServeEvent::Connected(false)), ServeAction::Create);
    assert_eq!(serve(ServeEvent::Shutdown), ServeAction::Stop);
}
