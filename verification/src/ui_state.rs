//! What the window's program keeps, and what it does when the user or the core acts.

use vstd::prelude::*;

use crate::forms::restore_default;
use crate::protocol::{
    adapters_view, AdapterInfo, AdapterView, AppConfig, ConfigView, RuntimeState,
};
use crate::text::concat2;

verus! {

/// How often connecting is tried at startup.
pub const CONNECT_ATTEMPTS: u32 = 10;

/// The pause between two attempts, in milliseconds.
pub const CONNECT_PAUSE_MS: u64 = 500;

/// The pause between two looks at the core's state, in milliseconds.
pub const STATUS_POLL_MS: u64 = 1000;

/// The pause between two looks at the tray's menu, in milliseconds.
pub const TRAY_POLL_MS: u64 = 200;

/// What follows an attempt to connect.
#[derive(Debug, Clone, Copy, PartialEq, Eq, Structural)]
pub enum ConnectStep {
    /// The program is connected.
    Connected,
    /// Try again after the pause.
    Retry { pause_ms: u64 },
    /// Stop trying for now.
    GiveUp,
}

/// Decides what follows an attempt to connect; attempts are counted from one.
pub fn after_connect(attempt: u32, ok: bool) -> (next: ConnectStep)
    ensures
        next == if ok {
            ConnectStep::Connected
        } else if attempt < CONNECT_ATTEMPTS {
            ConnectStep::Retry { pause_ms: CONNECT_PAUSE_MS }
        } else {
            ConnectStep::GiveUp
        },
{
    if ok {
        ConnectStep::Connected
    } else if attempt < CONNECT_ATTEMPTS {
        ConnectStep::Retry { pause_ms: CONNECT_PAUSE_MS }
    } else {
        ConnectStep::GiveUp
    }
}

/// What the program keeps.
#[derive(Debug)]
pub struct UiState {
    /// Whether there is a connection to the core.
    pub connected: bool,
    pub config: AppConfig,
    /// The adapters as they were listed last.
    pub adapters: Vec<AdapterInfo>,
}

/// What the program keeps, by its contents.
pub struct UiView {
    pub connected: bool,
    pub config: ConfigView,
    pub adapters: Seq<AdapterView>,
}

impl View for UiState {
    type V = UiView;

    open spec fn view(&self) -> UiView {
        UiView {
            connected: self.connected,
            config: self.config@,
            adapters: adapters_view(self.adapters@),
        }
    }
}

impl UiState {
    /// What the program keeps at first.
    pub fn new() -> (s: UiState)
        ensures
            s@ == (UiView {
                connected: false,
                config: ConfigView::initial(),
                adapters: Seq::empty(),
            }),
    {
        let s = UiState { connected: false, config: AppConfig::default(), adapters: Vec::new() };
        assert(s@.adapters =~= Seq::empty());
        s
    }

    /// The words for the connection.
    pub fn service_text(&self) -> (text: &'static str)
        ensures
            text@ == if self.connected {
                "服务运行中"@
            } else {
                "服务断开"@
            },
    {
        if self.connected {
            "服务运行中"
        } else {
            "服务断开"
        }
    }

    /// The user has selected an adapter by its place in the list. Tells whether there is
    /// one at that place; if so, the configuration names it. The core takes it over once a
    /// router is set as well.
    pub fn select_adapter(&mut self, index: i32) -> (found: bool)
        ensures
            found == (0 <= index < old(self)@.adapters.len()),
            final(self)@ == old(self)@.selected(index),
    {
        if index < 0 || index as usize >= self.adapters.len() {
            return false;
        }
        self.config.adapter_id = self.adapters[index as usize].id.clone();
        true
    }

    /// The program has connected again and asked for everything. Only if all answers
    /// came, the connection is kept and what the program keeps is replaced. Tells
    /// whether the window has to be filled anew.
    pub fn resync(
        &mut self,
        status: &Option<RuntimeState>,
        config: Option<AppConfig>,
        adapters: Option<Vec<AdapterInfo>>,
    ) -> (refill: bool)
        ensures
            match (*status, config, adapters) {
                (Some(_), Some(c), Some(l)) => refill && final(self)@ == (UiView {
                    connected: true,
                    config: c@,
                    adapters: adapters_view(l@),
                }),
                _ => !refill && final(self)@ == (UiView { connected: false, ..old(self)@ }),
            },
    {
        match (status, config, adapters) {
            (Some(_), Some(c), Some(l)) => {
                self.connected = true;
                self.config = c;
                self.adapters = l;
                true
            },
            _ => {
                self.connected = false;
                false
            },
        }
    }

    /// A new list of adapters has come; an empty one is not taken over. Tells whether it
    /// was.
    pub fn refresh_adapters(&mut self, list: Vec<AdapterInfo>) -> (taken: bool)
        ensures
            taken == (list@.len() > 0),
            final(self)@ == if taken {
                UiView { adapters: adapters_view(list@), ..old(self)@ }
            } else {
                old(self)@
            },
    {
        if list.len() == 0 {
            return false;
        }
        self.adapters = list;
        true
    }
}

/// What the user was doing when something failed.
#[derive(Debug, Clone, Copy, PartialEq, Eq, Structural)]
pub enum UserTask {
    SelectAdapter,
    Toggle,
    Save,
    RestoreDefault,
}

/// What the window says when something failed.
pub fn failure_text(task: UserTask, cause: &str) -> (text: String)
    ensures
        text@ == failure(task, cause@),
{
    match task {
        UserTask::SelectAdapter => concat2("保存网卡选择失败: ", cause),
        UserTask::Toggle => cause.to_owned(),
        UserTask::Save => concat2("保存失败: ", cause),
        UserTask::RestoreDefault => concat2("恢复默认失败: ", cause),
    }
}

// ---------------------------------------------------------------------------
// Staying in step with the core
// ---------------------------------------------------------------------------

/// What the host has to do for the program.
#[derive(Debug)]
pub enum UiAction {
    /// Ask the core for its state.
    AskStatus,
    /// Connect to the core, once, and use that connection from then on.
    Connect,
    /// Ask for the state, the configuration and the adapters.
    AskAll,
    /// Give the connection up.
    Disconnect,
    /// Ask for the adapters, if there is a connection.
    AskAdapters,
    /// Show the words for the connection.
    ShowService,
    /// Show the configuration in the form.
    FillForm,
    /// Show the list of adapters and the one that is selected.
    ShowAdapters,
    /// Show the adapter that is selected.
    ShowAdapter,
    /// Show the state of the core.
    ShowStatus(RuntimeState),
    /// Send the configuration.
    Send(AppConfig),
    /// Have the bypass enabled.
    Enable,
    /// Have the bypass disabled.
    Disable,
    /// Show the message.
    Message(String),
}

/// An action by its contents.
pub enum UiActionView {
    AskStatus,
    Connect,
    AskAll,
    Disconnect,
    AskAdapters,
    ShowService,
    FillForm,
    ShowAdapters,
    ShowAdapter,
    ShowStatus(RuntimeState),
    Send(ConfigView),
    Enable,
    Disable,
    Message(Seq<char>),
}

impl View for UiAction {
    type V = UiActionView;

    open spec fn view(&self) -> UiActionView {
        match *self {
            UiAction::AskStatus => UiActionView::AskStatus,
            UiAction::Connect => UiActionView::Connect,
            UiAction::AskAll => UiActionView::AskAll,
            UiAction::Disconnect => UiActionView::Disconnect,
            UiAction::AskAdapters => UiActionView::AskAdapters,
            UiAction::ShowService => UiActionView::ShowService,
            UiAction::FillForm => UiActionView::FillForm,
            UiAction::ShowAdapters => UiActionView::ShowAdapters,
            UiAction::ShowAdapter => UiActionView::ShowAdapter,
            UiAction::ShowStatus(rs) => UiActionView::ShowStatus(rs),
            UiAction::Send(c) => UiActionView::Send(c@),
            UiAction::Enable => UiActionView::Enable,
            UiAction::Disable => UiActionView::Disable,
            UiAction::Message(s) => UiActionView::Message(s@),
        }
    }
}

/// Actions by their contents.
pub open spec fn ui_actions_view(v: Seq<UiAction>) -> Seq<UiActionView> {
    v.map_values(|a: UiAction| a@)
}

/// What the host tells the program.
#[derive(Debug)]
pub enum UiAnswer {
    /// The state of the core, if it came.
    Status(Option<RuntimeState>),
    /// Whether connecting went well.
    Connected(bool),
    /// The state, the configuration and the adapters, as far as they came.
    All(Option<RuntimeState>, Option<AppConfig>, Option<Vec<AdapterInfo>>),
    /// The adapters, if they came.
    Adapters(Option<Vec<AdapterInfo>>),
}

/// An answer by its contents.
pub enum UiAnswerView {
    Status(Option<RuntimeState>),
    Connected(bool),
    All(Option<RuntimeState>, Option<ConfigView>, Option<Seq<AdapterView>>),
    Adapters(Option<Seq<AdapterView>>),
}

/// An optional configuration by its contents.
pub open spec fn config_view(c: Option<AppConfig>) -> Option<ConfigView> {
    match c {
        Some(x) => Some(x@),
        None => None,
    }
}

/// An optional list of adapters by its contents.
pub open spec fn adapter_list_view(l: Option<Vec<AdapterInfo>>) -> Option<Seq<AdapterView>> {
    match l {
        Some(x) => Some(adapters_view(x@)),
        None => None,
    }
}

impl View for UiAnswer {
    type V = UiAnswerView;

    open spec fn view(&self) -> UiAnswerView {
        match *self {
            UiAnswer::Status(s) => UiAnswerView::Status(s),
            UiAnswer::Connected(ok) => UiAnswerView::Connected(ok),
            UiAnswer::All(s, c, l) => UiAnswerView::All(s, config_view(c), adapter_list_view(l)),
            UiAnswer::Adapters(l) => UiAnswerView::Adapters(adapter_list_view(l)),
        }
    }
}

impl UiView {
    /// How the state of the core is shown. As long as no adapters are known, they are asked
    /// for first.
    pub open spec fn showing(self, status: Option<RuntimeState>) -> Seq<UiActionView> {
        match status {
            Some(rs) => if self.adapters.len() == 0 {
                seq![UiActionView::AskAdapters, UiActionView::ShowStatus(rs)]
            } else {
                seq![UiActionView::ShowStatus(rs)]
            },
            None => seq![],
        }
    }

    /// What is kept once the program has connected for the first time: what has come.
    pub open spec fn started(
        self,
        config: Option<ConfigView>,
        adapters: Option<Seq<AdapterView>>,
    ) -> (UiView, Seq<UiActionView>) {
        (
            UiView {
                connected: true,
                config: match config {
                    Some(c) => c,
                    None => self.config,
                },
                adapters: match adapters {
                    Some(l) => l,
                    None => self.adapters,
                },
            },
            (if config is Some {
                seq![UiActionView::FillForm]
            } else {
                seq![]
            }) + seq![
                if adapters is Some {
                    UiActionView::ShowAdapters
                } else {
                    UiActionView::ShowAdapter
                },
                UiActionView::ShowService,
            ],
        )
    }

    /// What follows an answer. Without an answer on its state the core is connected to
    /// anew, and then everything is asked for; only if all of it comes, the new connection
    /// is kept.
    pub open spec fn told(self, answer: UiAnswerView) -> (UiView, Seq<UiActionView>) {
        match answer {
            UiAnswerView::Status(Some(rs)) => (
                self,
                seq![UiActionView::ShowService] + self.showing(Some(rs)),
            ),
            UiAnswerView::Status(None) => (
                self,
                seq![UiActionView::ShowService, UiActionView::Connect],
            ),
            UiAnswerView::Connected(true) => (self, seq![UiActionView::AskAll]),
            UiAnswerView::Connected(false) => (self, seq![]),
            UiAnswerView::All(Some(rs), Some(config), Some(adapters)) => {
                let next = UiView { connected: true, config, adapters };
                (
                    next,
                    seq![UiActionView::FillForm, UiActionView::ShowAdapters] + next.showing(
                        Some(rs),
                    ),
                )
            },
            UiAnswerView::All(status, _, _) => {
                let next = UiView { connected: false, ..self };
                (next, seq![UiActionView::Disconnect] + next.showing(status))
            },
            UiAnswerView::Adapters(Some(adapters)) => if adapters.len() == 0 {
                (self, seq![])
            } else {
                (UiView { adapters, ..self }, seq![UiActionView::ShowAdapters])
            },
            UiAnswerView::Adapters(None) => (self, seq![]),
        }
    }

    /// How a look at the core's state begins.
    pub open spec fn looking(self) -> Seq<UiActionView> {
        if self.connected {
            seq![UiActionView::AskStatus]
        } else {
            self.told(UiAnswerView::Status(None)).1
        }
    }
}

impl UiState {
    fn show_state(&self, status: Option<RuntimeState>, out: &mut Vec<UiAction>)
        ensures
            ui_actions_view(final(out)@) == ui_actions_view(old(out)@) + self@.showing(status),
    {
        let ghost before = ui_actions_view(out@);
        if let Some(rs) = status {
            if self.adapters.len() == 0 {
                out.push(UiAction::AskAdapters);
            }
            out.push(UiAction::ShowStatus(rs));
        }
        assert(ui_actions_view(out@) =~= before + self@.showing(status));
    }

    /// The program has connected for the first time and asked for the configuration and the
    /// adapters. Says what the window has to show.
    pub fn start(&mut self, config: Option<AppConfig>, adapters: Option<Vec<AdapterInfo>>) -> (out:
        Vec<UiAction>)
        ensures
            (final(self)@, ui_actions_view(out@)) == old(self)@.started(
                config_view(config),
                adapter_list_view(adapters),
            ),
    {
        let ghost want = self@.started(config_view(config), adapter_list_view(adapters));
        let mut out: Vec<UiAction> = Vec::new();
        self.connected = true;
        if let Some(c) = config {
            self.config = c;
            out.push(UiAction::FillForm);
        }
        match adapters {
            Some(l) => {
                self.adapters = l;
                out.push(UiAction::ShowAdapters);
            },
            None => {
                out.push(UiAction::ShowAdapter);
            },
        }
        out.push(UiAction::ShowService);
        assert(ui_actions_view(out@) =~= want.1);
        out
    }

    /// Begins a look at the core's state.
    pub fn look(&self) -> (out: Vec<UiAction>)
        ensures
            ui_actions_view(out@) == self@.looking(),
    {
        let mut out: Vec<UiAction> = Vec::new();
        if self.connected {
            out.push(UiAction::AskStatus);
        } else {
            out.push(UiAction::ShowService);
            out.push(UiAction::Connect);
        }
        assert(ui_actions_view(out@) =~= self@.looking());
        out
    }

    /// Takes an answer in and says what to do next.
    pub fn step(&mut self, answer: UiAnswer) -> (out: Vec<UiAction>)
        ensures
            (final(self)@, ui_actions_view(out@)) == old(self)@.told(answer@),
    {
        let ghost want = self@.told(answer@);
        let mut out: Vec<UiAction> = Vec::new();
        match answer {
            UiAnswer::Status(status) => {
                out.push(UiAction::ShowService);
                if status.is_none() {
                    out.push(UiAction::Connect);
                }
                assert(ui_actions_view(out@) =~= if status is None {
                    seq![UiActionView::ShowService, UiActionView::Connect]
                } else {
                    seq![UiActionView::ShowService]
                });
                self.show_state(status, &mut out);
            },
            UiAnswer::Connected(ok) => {
                if ok {
                    out.push(UiAction::AskAll);
                }
            },
            UiAnswer::All(status, config, adapters) => {
                if self.resync(&status, config, adapters) {
                    out.push(UiAction::FillForm);
                    out.push(UiAction::ShowAdapters);
                    assert(ui_actions_view(out@) =~= seq![
                        UiActionView::FillForm,
                        UiActionView::ShowAdapters,
                    ]);
                } else {
                    out.push(UiAction::Disconnect);
                    assert(ui_actions_view(out@) =~= seq![UiActionView::Disconnect]);
                }
                self.show_state(status, &mut out);
            },
            UiAnswer::Adapters(list) => {
                if let Some(l) = list {
                    if self.refresh_adapters(l) {
                        out.push(UiAction::ShowAdapters);
                    }
                }
            },
        }
        assert(ui_actions_view(out@) =~= want.1);
        out
    }
}

// ---------------------------------------------------------------------------
// What the user asks for
// ---------------------------------------------------------------------------

/// What the user asks for.
#[derive(Debug)]
pub enum UserRequest {
    /// The adapter at the place is to be used.
    SelectAdapter(i32),
    /// The other state is wanted, given what the form reads as and whether the bypass is
    /// enabled.
    Toggle(Result<AppConfig, String>, bool),
    /// The form is to be saved, given what it reads as.
    Save(Result<AppConfig, String>),
    /// The initial configuration is wanted back.
    RestoreDefault,
}

/// A request by its contents.
pub enum UserRequestView {
    SelectAdapter(i32),
    Toggle(Result<ConfigView, Seq<char>>, bool),
    Save(Result<ConfigView, Seq<char>>),
    RestoreDefault,
}

/// What a form reads as, by its contents.
pub open spec fn form_result(r: Result<AppConfig, String>) -> Result<ConfigView, Seq<char>> {
    match r {
        Ok(c) => Ok(c@),
        Err(e) => Err(e@),
    }
}

impl View for UserRequest {
    type V = UserRequestView;

    open spec fn view(&self) -> UserRequestView {
        match *self {
            UserRequest::SelectAdapter(i) => UserRequestView::SelectAdapter(i),
            UserRequest::Toggle(r, on) => UserRequestView::Toggle(form_result(r), on),
            UserRequest::Save(r) => UserRequestView::Save(form_result(r)),
            UserRequest::RestoreDefault => UserRequestView::RestoreDefault,
        }
    }
}

/// How far a request has come.
#[derive(Debug, Clone, Copy, PartialEq, Eq, Structural)]
pub enum UserPhase {
    /// The configuration is being sent.
    Sending,
    /// The bypass is being enabled or disabled.
    Switching,
    /// There is nothing more to do.
    Finished,
}

/// A request that is being carried out.
#[derive(Debug)]
pub struct UserWork {
    pub task: UserTask,
    /// The configuration that is to be in effect.
    pub config: AppConfig,
    pub phase: UserPhase,
}

/// A request that is being carried out, by its contents.
pub struct WorkView {
    pub task: UserTask,
    pub config: ConfigView,
    pub phase: UserPhase,
}

impl View for UserWork {
    type V = WorkView;

    open spec fn view(&self) -> WorkView {
        WorkView { task: self.task, config: self.config@, phase: self.phase }
    }
}

/// The words for a missing connection.
pub const NOT_CONNECTED: &'static str = "未连接到核心服务";

/// What the window says when something failed.
pub open spec fn failure(task: UserTask, cause: Seq<char>) -> Seq<char> {
    match task {
        UserTask::SelectAdapter => "保存网卡选择失败: "@ + cause,
        UserTask::Toggle => cause,
        UserTask::Save => "保存失败: "@ + cause,
        UserTask::RestoreDefault => "恢复默认失败: "@ + cause,
    }
}

impl WorkView {
    /// Nothing more is to be done but to show the message.
    pub open spec fn over(self, message: Seq<char>) -> (WorkView, Seq<UiActionView>) {
        (
            WorkView { phase: UserPhase::Finished, ..self },
            seq![UiActionView::Message(message)],
        )
    }

    /// The configuration is sent, if there is a connection.
    pub open spec fn sending(self, connected: bool) -> (WorkView, Seq<UiActionView>) {
        if connected {
            (
                WorkView { phase: UserPhase::Sending, ..self },
                seq![UiActionView::Send(self.config)],
            )
        } else {
            self.over(failure(self.task, NOT_CONNECTED@))
        }
    }
}

impl UiView {
    /// What is kept once the adapter at the place has been selected, if there is one.
    pub open spec fn selected(self, index: i32) -> UiView {
        if 0 <= index < self.adapters.len() {
            UiView {
                config: ConfigView {
                    adapter_id: self.adapters[index as int].id,
                    ..self.config
                },
                ..self
            }
        } else {
            self
        }
    }

    /// How a request begins. The form does not hold the adapter: the selected one stays.
    /// An adapter that is selected is so at once; without a connection that is all.
    pub open spec fn requested(self, request: UserRequestView) -> (
        UiView,
        WorkView,
        Seq<UiActionView>,
    ) {
        let id = self.config.adapter_id;
        match request {
            UserRequestView::SelectAdapter(index) => {
                let next = self.selected(index);
                let idle = WorkView {
                    task: UserTask::SelectAdapter,
                    config: next.config,
                    phase: UserPhase::Finished,
                };
                if 0 <= index < self.adapters.len() && self.connected {
                    let (work, actions) = idle.sending(true);
                    (next, work, actions)
                } else {
                    (next, idle, seq![])
                }
            },
            UserRequestView::Toggle(Ok(c), is_enabled) => {
                let idle = WorkView {
                    task: UserTask::Toggle,
                    config: ConfigView { adapter_id: id, ..c },
                    phase: UserPhase::Finished,
                };
                if self.connected && is_enabled {
                    (
                        self,
                        WorkView { phase: UserPhase::Switching, ..idle },
                        seq![UiActionView::Disable],
                    )
                } else {
                    let (work, actions) = idle.sending(self.connected);
                    (self, work, actions)
                }
            },
            UserRequestView::Save(Ok(c)) => {
                let idle = WorkView {
                    task: UserTask::Save,
                    config: ConfigView { adapter_id: id, ..c },
                    phase: UserPhase::Finished,
                };
                let (work, actions) = idle.sending(self.connected);
                (self, work, actions)
            },
            UserRequestView::RestoreDefault => {
                let idle = WorkView {
                    task: UserTask::RestoreDefault,
                    config: ConfigView { adapter_id: id, ..ConfigView::initial() },
                    phase: UserPhase::Finished,
                };
                let (work, actions) = idle.sending(self.connected);
                (self, work, actions)
            },
            UserRequestView::Toggle(Err(e), _) => {
                let idle = WorkView {
                    task: UserTask::Toggle,
                    config: self.config,
                    phase: UserPhase::Finished,
                };
                (self, idle, seq![UiActionView::Message(e)])
            },
            UserRequestView::Save(Err(e)) => {
                let idle = WorkView {
                    task: UserTask::Save,
                    config: self.config,
                    phase: UserPhase::Finished,
                };
                (self, idle, seq![UiActionView::Message(e)])
            },
        }
    }

    /// What follows when the core has done what was asked of it, or has refused. Only a
    /// configuration with which all went well is kept.
    pub open spec fn answered(self, work: WorkView, reply: Result<(), Seq<char>>) -> (
        UiView,
        WorkView,
        Seq<UiActionView>,
    ) {
        let done = WorkView { phase: UserPhase::Finished, ..work };
        let keeping = UiView { config: work.config, ..self };
        match (work.phase, reply) {
            (UserPhase::Finished, _) => (self, work, seq![]),
            (_, Err(e)) => (self, done, seq![UiActionView::Message(failure(work.task, e))]),
            (UserPhase::Switching, Ok(_)) => (keeping, done, seq![UiActionView::AskAdapters]),
            (UserPhase::Sending, Ok(_)) => match work.task {
                UserTask::SelectAdapter => (self, done, seq![UiActionView::ShowAdapter]),
                UserTask::Toggle => (
                    self,
                    WorkView { phase: UserPhase::Switching, ..work },
                    seq![UiActionView::Enable],
                ),
                UserTask::Save => (keeping, done, seq![UiActionView::Message(""@)]),
                UserTask::RestoreDefault => (
                    keeping,
                    done,
                    seq![UiActionView::FillForm, UiActionView::Message("已恢复默认配置"@)],
                ),
            },
        }
    }
}

fn begin_send(task: UserTask, config: AppConfig, connected: bool) -> (r: (UserWork, Vec<UiAction>))
    ensures
        (r.0@, ui_actions_view(r.1@)) == (WorkView {
            task,
            config: config@,
            phase: UserPhase::Finished,
        }).sending(connected),
{
    let ghost idle = WorkView { task, config: config@, phase: UserPhase::Finished };
    let mut out: Vec<UiAction> = Vec::new();
    if connected {
        let copy = config.clone();
        out.push(UiAction::Send(copy));
        assert(ui_actions_view(out@) =~= idle.sending(connected).1);
        (UserWork { task, config, phase: UserPhase::Sending }, out)
    } else {
        let text = failure_text(task, NOT_CONNECTED);
        out.push(UiAction::Message(text));
        assert(ui_actions_view(out@) =~= idle.sending(connected).1);
        (UserWork { task, config, phase: UserPhase::Finished }, out)
    }
}

fn one_action(action: UiAction) -> (out: Vec<UiAction>)
    ensures
        ui_actions_view(out@) == seq![action@],
{
    let mut out: Vec<UiAction> = Vec::new();
    out.push(action);
    assert(ui_actions_view(out@) =~= seq![action@]);
    out
}

fn no_action() -> (out: Vec<UiAction>)
    ensures
        ui_actions_view(out@) == Seq::<UiActionView>::empty(),
{
    let out: Vec<UiAction> = Vec::new();
    assert(ui_actions_view(out@) =~= Seq::<UiActionView>::empty());
    out
}

impl UiState {
    fn refuse(&self, task: UserTask, cause: String) -> (r: (UserWork, Vec<UiAction>))
        ensures
            r.0@ == (WorkView { task, config: self@.config, phase: UserPhase::Finished }),
            ui_actions_view(r.1@) == seq![UiActionView::Message(cause@)],
    {
        (
            UserWork { task, config: self.config.clone(), phase: UserPhase::Finished },
            one_action(UiAction::Message(cause)),
        )
    }

    /// Begins to carry out what the user asks for.
    pub fn request(&mut self, request: UserRequest) -> (r: (UserWork, Vec<UiAction>))
        ensures
            (final(self)@, r.0@, ui_actions_view(r.1@)) == old(self)@.requested(request@),
    {
        match request {
            UserRequest::SelectAdapter(index) => {
                let found = self.select_adapter(index);
                let config = self.config.clone();
                if found && self.connected {
                    begin_send(UserTask::SelectAdapter, config, true)
                } else {
                    let phase = UserPhase::Finished;
                    (UserWork { task: UserTask::SelectAdapter, config, phase }, no_action())
                }
            },
            UserRequest::Toggle(Ok(c), is_enabled) => {
                let mut config = c;
                config.adapter_id = self.config.adapter_id.clone();
                if self.connected && is_enabled {
                    let phase = UserPhase::Switching;
                    (
                        UserWork { task: UserTask::Toggle, config, phase },
                        one_action(UiAction::Disable),
                    )
                } else {
                    begin_send(UserTask::Toggle, config, self.connected)
                }
            },
            UserRequest::Save(Ok(c)) => {
                let mut config = c;
                config.adapter_id = self.config.adapter_id.clone();
                begin_send(UserTask::Save, config, self.connected)
            },
            UserRequest::RestoreDefault => {
                let config = restore_default(&self.config);
                begin_send(UserTask::RestoreDefault, config, self.connected)
            },
            UserRequest::Toggle(Err(e), _) => self.refuse(UserTask::Toggle, e),
            UserRequest::Save(Err(e)) => self.refuse(UserTask::Save, e),
        }
    }

    /// Takes in whether the core has done what was asked of it, and says what to do next.
    pub fn answer(&mut self, work: &mut UserWork, reply: Result<(), String>) -> (out: Vec<UiAction>)
        ensures
            (final(self)@, final(work)@, ui_actions_view(out@)) == old(self)@.answered(
                old(work)@,
                match reply {
                    Ok(_) => Ok(()),
                    Err(e) => Err(e@),
                },
            ),
    {
        if work.phase == UserPhase::Finished {
            return no_action();
        }
        let switching = work.phase == UserPhase::Switching;
        if let Err(e) = reply {
            work.phase = UserPhase::Finished;
            let text = failure_text(work.task, e.as_str());
            return one_action(UiAction::Message(text));
        }
        if !switching && work.task == UserTask::Toggle {
            work.phase = UserPhase::Switching;
            return one_action(UiAction::Enable);
        }
        work.phase = UserPhase::Finished;
        if !switching && work.task == UserTask::SelectAdapter {
            return one_action(UiAction::ShowAdapter);
        }
        self.config = work.config.clone();
        if switching {
            return one_action(UiAction::AskAdapters);
        }
        if work.task == UserTask::Save {
            return one_action(UiAction::Message("".to_owned()));
        }
        let mut out: Vec<UiAction> = Vec::new();
        out.push(UiAction::FillForm);
        out.push(UiAction::Message("已恢复默认配置".to_owned()));
        assert(ui_actions_view(out@) =~= seq![
            UiActionView::FillForm,
            UiActionView::Message("已恢复默认配置"@),
        ]);
        out
    }
}

// ---------------------------------------------------------------------------
// Laws
// ---------------------------------------------------------------------------

/// A lost connection is made anew: without an answer on the core's state it is connected
/// to, then everything is asked for, and with all answers everything is replaced and shown.
pub proof fn lost_connection_is_made_anew(
    s: UiView,
    rs: RuntimeState,
    config: ConfigView,
    adapters: Seq<AdapterView>,
)
    requires
        adapters.len() > 0,
    ensures
        ({
            let (s1, a1) = s.told(UiAnswerView::Status(None));
            let (s2, a2) = s1.told(UiAnswerView::Connected(true));
            let (s3, a3) = s2.told(
                UiAnswerView::All(Some(rs), Some(config), Some(adapters)),
            );
            &&& a1 == seq![UiActionView::ShowService, UiActionView::Connect]
            &&& a2 == seq![UiActionView::AskAll]
            &&& a3 == seq![
                UiActionView::FillForm,
                UiActionView::ShowAdapters,
                UiActionView::ShowStatus(rs),
            ]
            &&& s3 == (UiView { connected: true, config, adapters })
        }),
{
    assert(seq![UiActionView::FillForm, UiActionView::ShowAdapters] + seq![
        UiActionView::ShowStatus(rs),
    ] =~= seq![
        UiActionView::FillForm,
        UiActionView::ShowAdapters,
        UiActionView::ShowStatus(rs),
    ]);
}

/// Half a set of answers changes neither the configuration nor the adapters, and the new
/// connection is given up.
pub proof fn partial_answers_change_nothing(
    s: UiView,
    status: Option<RuntimeState>,
    config: Option<ConfigView>,
    adapters: Option<Seq<AdapterView>>,
)
    requires
        status is None || config is None || adapters is None,
    ensures
        ({
            let (next, actions) = s.told(UiAnswerView::All(status, config, adapters));
            &&& next == (UiView { connected: false, ..s })
            &&& actions[0] == UiActionView::Disconnect
        }),
{
}

/// A configuration that the core has refused is not kept.
pub proof fn refused_config_is_not_kept(s: UiView, work: WorkView, cause: Seq<char>)
    requires
        !(work.phase is Finished),
    ensures
        ({
            let (next, after, actions) = s.answered(work, Err(cause));
            &&& next == s
            &&& after.phase is Finished
            &&& actions == seq![UiActionView::Message(failure(work.task, cause))]
        }),
{
}

/// A form that is saved is sent for the selected adapter, and kept once the core has taken
/// it over.
pub proof fn saved_config_is_kept(s: UiView, c: ConfigView)
    requires
        s.connected,
    ensures
        ({
            let want = ConfigView { adapter_id: s.config.adapter_id, ..c };
            let (s1, work, a1) = s.requested(UserRequestView::Save(Ok(c)));
            let (s2, _, a2) = s1.answered(work, Ok(()));
            &&& s1 == s
            &&& a1 == seq![UiActionView::Send(want)]
            &&& s2 == (UiView { config: want, ..s })
            &&& a2 == seq![UiActionView::Message(""@)]
        }),
{
}

/// Enabling sends the configuration first and enables only once it has been taken over;
/// disabling sends none.
pub proof fn switching_sends_the_config_first(s: UiView, c: ConfigView)
    requires
        s.connected,
    ensures
        ({
            let want = ConfigView { adapter_id: s.config.adapter_id, ..c };
            let (s1, w1, a1) = s.requested(UserRequestView::Toggle(Ok(c), false));
            let (s2, w2, a2) = s1.answered(w1, Ok(()));
            let (s3, w3, a3) = s2.answered(w2, Ok(()));
            &&& a1 == seq![UiActionView::Send(want)]
            &&& a2 == seq![UiActionView::Enable]
            &&& a3 == seq![UiActionView::AskAdapters]
            &&& s2 == s
            &&& s3 == (UiView { config: want, ..s })
            &&& w3.phase is Finished
            &&& s.requested(UserRequestView::Toggle(Ok(c), true)).2 == seq![UiActionView::Disable]
        }),
{
}

} // verus!
