//! The server's side of the protocol: what each line asks for and how it is answered.

use vstd::prelude::*;

use crate::addr::IpAddr;
use crate::error::{CoreError, ErrorView};
use crate::health_monitor::{answered, PING_TIMEOUT_MS};
use crate::ip_text::{ip_of_text, parse_ip};
use crate::json::{
    bool_text, json_bool, json_member_of, json_string_of, read_json_member, read_json_string,
};
use crate::method;
use crate::protocol::{
    text_view, AppConfig, ConfigView, OutcomeView, ResponseView, RpcError, RpcNotification,
    RpcOutcome, RpcRequest, RpcResponse, SwitchMode, APP_ERROR, INVALID_PARAMS, METHOD_NOT_FOUND,
    PROTOCOL_VERSION,
};
use crate::text::{concat2, same_text, trim, trim_end, trimmed, trimmed_text_has_no_space_around};

verus! {

/// Who may use the pipe: the system, administrators, and every user who has logged on.
pub const PIPE_SDDL: &'static str = "D:P(A;;GA;;;SY)(A;;GA;;;BA)(A;;GA;;;AU)";

// ---------------------------------------------------------------------------
// Accepting connections
// ---------------------------------------------------------------------------

/// What happened to the listening server.
#[derive(Debug, Clone, Copy, PartialEq, Eq, Structural)]
pub enum ServeEvent {
    /// The rights of the pipe could be set up, or not.
    Prepared(bool),
    /// An instance of the pipe could be created, or not.
    Created(bool),
    /// A client has connected, or failed to.
    Connected(bool),
    /// The pause is over.
    Rested,
    /// The server is to stop.
    Shutdown,
}

/// What the server does next.
#[derive(Debug, Clone, Copy, PartialEq, Eq, Structural)]
pub enum ServeAction {
    /// Create an instance of the pipe.
    Create,
    /// Wait for a client.
    Accept,
    /// Wait a while before the next attempt.
    Rest { secs: u64 },
    /// Talk to the client, and meanwhile create the next instance.
    SpawnAndCreate,
    /// Stop listening.
    Stop,
}

/// Decides what the server does next. Without rights for the pipe no client could
/// connect, so the server stops; any other failure is tried again.
pub fn serve(event: ServeEvent) -> (action: ServeAction)
    ensures
        action == match event {
            ServeEvent::Prepared(ok) => if ok {
                ServeAction::Create
            } else {
                ServeAction::Stop
            },
            ServeEvent::Created(ok) => if ok {
                ServeAction::Accept
            } else {
                ServeAction::Rest { secs: 1 }
            },
            ServeEvent::Connected(ok) => if ok {
                ServeAction::SpawnAndCreate
            } else {
                ServeAction::Create
            },
            ServeEvent::Rested => ServeAction::Create,
            ServeEvent::Shutdown => ServeAction::Stop,
        },
{
    match event {
        ServeEvent::Prepared(true) => ServeAction::Create,
        ServeEvent::Prepared(false) => ServeAction::Stop,
        ServeEvent::Created(true) => ServeAction::Accept,
        ServeEvent::Created(false) => ServeAction::Rest { secs: 1 },
        ServeEvent::Connected(true) => ServeAction::SpawnAndCreate,
        ServeEvent::Connected(false) => ServeAction::Create,
        ServeEvent::Rested => ServeAction::Create,
        ServeEvent::Shutdown => ServeAction::Stop,
    }
}

// ---------------------------------------------------------------------------
// Outcomes
// ---------------------------------------------------------------------------

/// A failure with a code and a message.
pub open spec fn failure(code: i32, message: Seq<char>) -> OutcomeView {
    OutcomeView::Failure { code, message, data: None }
}

/// The outcome of an operation of the core.
pub open spec fn done_outcome(r: Result<(), ErrorView>) -> OutcomeView {
    match r {
        Ok(_) => OutcomeView::Success { result: "null"@ },
        Err(e) => failure(1, e.message()),
    }
}

/// The outcome with a code and a message.
pub fn err(code: i32, message: &str) -> (o: RpcOutcome)
    ensures
        o@ == failure(code, message@),
{
    RpcOutcome::Failure { error: RpcError { code, message: message.to_owned(), data: None } }
}

/// The outcome of a result that was turned into JSON, or could not be.
pub fn ok(json: Result<String, String>) -> (o: RpcOutcome)
    ensures
        o@ == match json {
            Ok(s) => OutcomeView::Success { result: s@ },
            Err(e) => failure(APP_ERROR, "序列化失败: "@ + e@),
        },
{
    match json {
        Ok(result) => RpcOutcome::Success { result },
        Err(e) => {
            let message = concat2("序列化失败: ", e.as_str());
            err(APP_ERROR, message.as_str())
        },
    }
}

/// The outcome of an error of the core.
pub fn core_failure(e: &CoreError) -> (o: RpcOutcome)
    ensures
        o@ == failure(1, e@.message()),
{
    let message = e.message();
    err(e.app_error_code(), message.as_str())
}

/// The outcome of an operation of the core.
pub fn operation_outcome(r: &Result<(), CoreError>) -> (o: RpcOutcome)
    ensures
        o@ == done_outcome(
            match *r {
                Ok(_) => Ok(()),
                Err(e) => Err(e@),
            },
        ),
{
    match r {
        Ok(_) => ok(Ok("null".to_owned())),
        Err(e) => core_failure(e),
    }
}

/// The outcome of a probe: whether it was answered.
pub fn probe_outcome(r: &Result<Option<u32>, CoreError>) -> (o: RpcOutcome)
    ensures
        o@ == (OutcomeView::Success { result: json_bool(answered(*r)) }),
{
    let reachable = match r {
        Ok(latency) => latency.is_some(),
        Err(_) => false,
    };
    ok(Ok(bool_text(reachable)))
}

// ---------------------------------------------------------------------------
// Dispatching
// ---------------------------------------------------------------------------

/// What a call asks the core for.
#[derive(Debug)]
pub enum Call {
    /// The runtime state.
    Status,
    /// The configuration.
    Config,
    /// To change the configuration.
    Update(AppConfig),
    Enable,
    Disable,
    /// To probe the address.
    Probe { ip: IpAddr, timeout_ms: u32 },
    ListAdapters,
    /// Nothing: the answer is settled.
    Answer(RpcOutcome),
}

/// A call by its contents.
pub enum CallView {
    Status,
    Config,
    Update(ConfigView),
    Enable,
    Disable,
    Probe { ip: IpAddr, timeout_ms: u32 },
    ListAdapters,
    Answer(OutcomeView),
}

impl View for Call {
    type V = CallView;

    open spec fn view(&self) -> CallView {
        match *self {
            Call::Status => CallView::Status,
            Call::Config => CallView::Config,
            Call::Update(c) => CallView::Update(c@),
            Call::Enable => CallView::Enable,
            Call::Disable => CallView::Disable,
            Call::Probe { ip, timeout_ms } => CallView::Probe { ip, timeout_ms },
            Call::ListAdapters => CallView::ListAdapters,
            Call::Answer(o) => CallView::Answer(o@),
        }
    }
}

/// The address that one of two texts writes, the first one first.
pub open spec fn picked_ip(text: Option<Seq<char>>, member: Option<Seq<char>>) -> Option<IpAddr> {
    match text {
        Some(t) if ip_of_text(t) is Some => ip_of_text(t),
        _ => match member {
            Some(m) => ip_of_text(m),
            None => None,
        },
    }
}

/// Picks the address that one of two texts writes, the first one first.
pub fn pick_ip(text: &Option<String>, member: &Option<String>) -> (ip: Option<IpAddr>)
    ensures
        ip == picked_ip(text_view(*text), text_view(*member)),
{
    match text {
        Some(t) => match parse_ip(t.as_str()) {
            Some(ip) => {
                return Some(ip);
            },
            None => {},
        },
        None => {},
    }
    match member {
        Some(m) => parse_ip(m.as_str()),
        None => None,
    }
}

/// The address in the parameters of a call: the parameters themselves are a string, or
/// an object with the string under "ip".
pub open spec fn ip_param(params: Seq<char>) -> Option<IpAddr> {
    picked_ip(
        json_string_of(params),
        match json_member_of(params, "ip"@) {
            Some(m) => json_string_of(m),
            None => None,
        },
    )
}

/// Reads the address in the parameters of a call.
pub fn read_ip_param(params: &str) -> (ip: Option<IpAddr>)
    ensures
        ip == ip_param(params@),
{
    let text = read_json_string(params);
    let member = match read_json_member(params, "ip") {
        Some(m) => read_json_string(m.as_str()),
        None => None,
    };
    pick_ip(&text, &member)
}

/// What a method asks for, with the address and the configuration in its parameters as
/// far as they can be read.
pub open spec fn called(
    name: Seq<char>,
    ip: Option<IpAddr>,
    config: Result<ConfigView, Seq<char>>,
) -> CallView {
    if name == method::GET_STATUS@ {
        CallView::Status
    } else if name == method::GET_CONFIG@ {
        CallView::Config
    } else if name == method::UPDATE_CONFIG@ {
        match config {
            Ok(c) => CallView::Update(c),
            Err(e) => CallView::Answer(failure(INVALID_PARAMS, "参数不合法: "@ + e)),
        }
    } else if name == method::ENABLE_BYPASS@ {
        CallView::Enable
    } else if name == method::DISABLE_BYPASS@ {
        CallView::Disable
    } else if name == method::TEST_CONNECTIVITY@ {
        match ip {
            Some(ip) => CallView::Probe { ip, timeout_ms: PING_TIMEOUT_MS },
            None => CallView::Answer(failure(INVALID_PARAMS, "需要 IP 地址参数"@)),
        }
    } else if name == method::LIST_ADAPTERS@ {
        CallView::ListAdapters
    } else {
        CallView::Answer(failure(METHOD_NOT_FOUND, "未知方法: "@ + name))
    }
}

/// A configuration that was read from JSON, by its contents, or why it was not.
pub open spec fn config_view(c: Result<AppConfig, String>) -> Result<ConfigView, Seq<char>> {
    match c {
        Ok(x) => Ok(x@),
        Err(s) => Err(s@),
    }
}

/// Finds out what a method asks for, with the address and the configuration in its
/// parameters as far as they can be read.
pub fn route(name: &str, ip: Option<IpAddr>, config: Result<AppConfig, String>) -> (c: Call)
    ensures
        c@ == called(name@, ip, config_view(config)),
{
    if same_text(name, method::GET_STATUS) {
        Call::Status
    } else if same_text(name, method::GET_CONFIG) {
        Call::Config
    } else if same_text(name, method::UPDATE_CONFIG) {
        match config {
            Ok(c) => Call::Update(c),
            Err(e) => {
                let message = concat2("参数不合法: ", e.as_str());
                Call::Answer(err(INVALID_PARAMS, message.as_str()))
            },
        }
    } else if same_text(name, method::ENABLE_BYPASS) {
        Call::Enable
    } else if same_text(name, method::DISABLE_BYPASS) {
        Call::Disable
    } else if same_text(name, method::TEST_CONNECTIVITY) {
        match ip {
            Some(ip) => Call::Probe { ip, timeout_ms: PING_TIMEOUT_MS },
            None => Call::Answer(err(INVALID_PARAMS, "需要 IP 地址参数")),
        }
    } else if same_text(name, method::LIST_ADAPTERS) {
        Call::ListAdapters
    } else {
        let message = concat2("未知方法: ", name);
        Call::Answer(err(METHOD_NOT_FOUND, message.as_str()))
    }
}

/// Finds out what a request asks for. The configuration is what its parameters were
/// read as, or why they were not.
pub fn dispatch(req: &RpcRequest, config: Result<AppConfig, String>) -> (c: Call)
    ensures
        c@ == called(req.method@, ip_param(req.params@), config_view(config)),
{
    let ip = read_ip_param(req.params.as_str());
    route(req.method.as_str(), ip, config)
}

// ---------------------------------------------------------------------------
// Connections
// ---------------------------------------------------------------------------

/// A message as one line.
pub open spec fn framed(text: Seq<char>) -> Seq<char> {
    text.push('\n')
}

/// Writes a message as one line.
pub fn write_line(text: &str) -> (line: String)
    ensures
        line@ == framed(text@),
{
    let mut line = text.to_owned();
    line.push('\n');
    line
}

/// The message on a line, unless the line is blank.
pub fn read_line(line: &str) -> (text: Option<String>)
    ensures
        match text {
            Some(t) => t@ == trimmed(line@) && t@.len() > 0,
            None => trimmed(line@).len() == 0,
        },
{
    let text = trim(line);
    if same_text(text.as_str(), "") {
        proof {
            reveal_strlit("");
        }
        None
    } else {
        proof {
            reveal_strlit("");
            if text@.len() == 0 {
                assert(text@ =~= ""@);
            }
        }
        Some(text)
    }
}

/// A message reads back from the line that it was written as, if there is no white
/// space around it.
pub proof fn line_reads_back(text: Seq<char>)
    requires
        trimmed(text) == text,
        text.len() > 0,
    ensures
        trimmed(framed(text)) == text,
{
    trimmed_text_has_no_space_around(text);
    let line = framed(text);
    assert(line[0] == text[0]);
    assert(line.drop_last() =~= text);
    reveal_with_fuel(trim_end, 2);
}

/// A client that the server talks to.
#[derive(Debug, Clone, Copy, PartialEq, Eq, Structural)]
pub struct Connection {
    /// Whether the client wants to be told of events.
    pub subscribed: bool,
}

/// What follows a line from a client.
#[derive(Debug)]
pub enum Handled {
    /// Nothing.
    Nothing,
    /// Send the answer.
    Respond(RpcResponse),
    /// Ask the core, and answer the call with what it says.
    Perform { id: u64, call: Call },
}

/// What follows a line, by its contents.
pub enum HandledView {
    Nothing,
    Respond(ResponseView),
    Perform { id: u64, call: CallView },
}

impl View for Handled {
    type V = HandledView;

    open spec fn view(&self) -> HandledView {
        match *self {
            Handled::Nothing => HandledView::Nothing,
            Handled::Respond(r) => HandledView::Respond(r@),
            Handled::Perform { id, call } => HandledView::Perform { id, call: call@ },
        }
    }
}

/// What follows a request: a subscription and a call whose answer is settled are
/// answered at once, any other call goes to the core.
pub open spec fn handled(req: RpcRequest, config: Result<ConfigView, Seq<char>>) -> HandledView {
    if req.method@ == method::SUBSCRIBE_EVENTS@ {
        HandledView::Respond(
            ResponseView::to(
                req.id,
                (OutcomeView::Success { result: "{\"subscribed\":true}"@ }),
            ),
        )
    } else {
        match called(req.method@, ip_param(req.params@), config) {
            CallView::Answer(o) => HandledView::Respond(ResponseView::to(req.id, o)),
            call => HandledView::Perform { id: req.id, call },
        }
    }
}

/// Every request is answered under its own number: at once, or by what the core says.
pub proof fn every_request_is_answered_under_its_number(
    req: RpcRequest,
    config: Result<ConfigView, Seq<char>>,
)
    ensures
        match handled(req, config) {
            HandledView::Nothing => false,
            HandledView::Respond(r) => r.id == req.id,
            HandledView::Perform { id, call } => id == req.id && !(call is Answer),
        },
{
}

/// Every answer, whatever it says, tells the version of the protocol and the modes that
/// the core knows.
pub proof fn answers_carry_capabilities(id: u64, outcome: OutcomeView)
    ensures
        ({
            let r = ResponseView::to(id, outcome);
            &&& r.jsonrpc == "2.0"@
            &&& r.result == outcome
            &&& r.protocol_version == Some(PROTOCOL_VERSION)
            &&& r.supported_modes == Some(
                seq![SwitchMode::RouteOverlay, SwitchMode::AdapterReconfig],
            )
        }),
{
}

/// A method that there is not is refused by its name, and the core is not asked.
pub proof fn unknown_method_is_refused(req: RpcRequest, config: Result<ConfigView, Seq<char>>)
    requires
        req.method@ != method::GET_STATUS@,
        req.method@ != method::GET_CONFIG@,
        req.method@ != method::UPDATE_CONFIG@,
        req.method@ != method::ENABLE_BYPASS@,
        req.method@ != method::DISABLE_BYPASS@,
        req.method@ != method::TEST_CONNECTIVITY@,
        req.method@ != method::LIST_ADAPTERS@,
        req.method@ != method::SUBSCRIBE_EVENTS@,
    ensures
        handled(req, config) == HandledView::Respond(
            ResponseView::to(
                req.id,
                failure(METHOD_NOT_FOUND, "未知方法: "@ + req.method@),
            ),
        ),
{
}

impl Connection {
    /// Takes a line in, given what it was read as: a request and the configuration in
    /// its parameters, or why it is no request. What is no request is passed over.
    pub fn handle_connection(
        &mut self,
        req: Result<RpcRequest, String>,
        config: Result<AppConfig, String>,
    ) -> (h: Handled)
        ensures
            match req {
                Err(_) => h@ == HandledView::Nothing && *final(self) == *old(self),
                Ok(r) => {
                    &&& h@ == handled(r, config_view(config))
                    &&& final(self).subscribed == (old(self).subscribed || r.method@
                        == method::SUBSCRIBE_EVENTS@)
                },
            },
    {
        match req {
            Err(_) => Handled::Nothing,
            Ok(r) => {
                match self.on_request(&r) {
                    Some(resp) => {
                        return Handled::Respond(resp);
                    },
                    None => {},
                }
                match dispatch(&r, config) {
                    Call::Answer(outcome) => Handled::Respond(RpcResponse::answer(r.id, outcome)),
                    call => Handled::Perform { id: r.id, call },
                }
            },
        }
    }

    /// A client that has just connected.
    pub fn new() -> (c: Connection)
        ensures
            !c.subscribed,
    {
        Connection { subscribed: false }
    }

    /// Takes a request in. A subscription is answered here; any other call is to be
    /// dispatched.
    pub fn on_request(&mut self, req: &RpcRequest) -> (resp: Option<RpcResponse>)
        ensures
            match resp {
                Some(r) => {
                    &&& req.method@ == method::SUBSCRIBE_EVENTS@
                    &&& final(self).subscribed
                    &&& r@ == ResponseView::to(
                        req.id,
                        (OutcomeView::Success { result: "{\"subscribed\":true}"@ }),
                    )
                },
                None => req.method@ != method::SUBSCRIBE_EVENTS@ && *final(self) == *old(self),
            },
    {
        if same_text(req.method.as_str(), method::SUBSCRIBE_EVENTS) {
            self.subscribed = true;
            let outcome = ok(Ok("{\"subscribed\":true}".to_owned()));
            Some(RpcResponse::answer(req.id, outcome))
        } else {
            None
        }
    }

    /// The message that tells the client of an event, given as JSON text, if the client
    /// wants to be told.
    pub fn on_event(&self, event_json: String) -> (n: Option<RpcNotification>)
        ensures
            match n {
                Some(x) => {
                    &&& self.subscribed
                    &&& x.jsonrpc@ == "2.0"@
                    &&& x.method@ == method::EVENT_PUSH@
                    &&& x.params@ == event_json@
                },
                None => !self.subscribed,
            },
    {
        if self.subscribed {
            Some(
                RpcNotification {
                    jsonrpc: "2.0".to_owned(),
                    method: method::EVENT_PUSH.to_owned(),
                    params: event_json,
                },
            )
        } else {
            None
        }
    }
}

} // verus!
