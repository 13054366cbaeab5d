//! Whether the program starts with the system: the registry decides, and a settings
//! file remembers what the user chose.

use vstd::prelude::*;

use crate::encoding::{decode_utf16, to_wide, utf16_front_reads_back, utf16_of, utf16_text};
use crate::json::{bool_object, json_member_of, read_json_member, write_bool_object};
use crate::number::{dec, dec_text};
use crate::protocol::{clone_text, text_view};
use crate::state_store::{join, joined};
use crate::text::{chars_of, concat2, concat3, same_text, text_of};

verus! {

/// The registry key of programs that start with the system.
pub const RUN_SUBKEY: &'static str = r"Software\Microsoft\Windows\CurrentVersion\Run";

/// The name of this program's value under that key.
pub const RUN_VALUE_NAME: &'static str = "RouteToolUI";

/// The code of a value that is not there.
pub const ERROR_FILE_NOT_FOUND: u32 = 2;

/// The member of the settings file.
pub const SETTING: &'static str = "launch_at_startup";

/// The settings file, given the directory of the user's application data.
pub fn settings_path(appdata: &Option<String>) -> (path: Option<String>)
    ensures
        match *appdata {
            Some(dir) => path matches Some(p) && p@ == joined(
                joined(dir@, "RouteTool"@),
                "ui_settings.json"@,
            ),
            None => path is None,
        },
{
    match appdata {
        Some(dir) => {
            let below = join(dir.as_str(), "RouteTool");
            Some(join(below.as_str(), "ui_settings.json"))
        },
        None => None,
    }
}

/// The command that the system is to run: the program, quoted, with its tray option.
pub open spec fn run_data(exe: Option<Seq<char>>) -> Seq<char> {
    "\""@ + (match exe {
        Some(p) => p,
        None => "route-tool-ui.exe"@,
    }) + "\" --tray"@
}

/// The command that the system is to run, given the path of the program if it is known.
pub fn run_key_data(exe: &Option<String>) -> (data: String)
    ensures
        data@ == run_data(text_view(*exe)),
{
    match exe {
        Some(p) => concat3("\"", p.as_str(), "\" --tray"),
        None => concat3("\"", "route-tool-ui.exe", "\" --tray"),
    }
}

// ---------------------------------------------------------------------------
// The registry value
// ---------------------------------------------------------------------------

/// The text without the zeros at its end.
pub open spec fn without_zeros(s: Seq<char>) -> Seq<char>
    decreases s.len(),
{
    if s.len() > 0 && s.last() == '\0' {
        without_zeros(s.drop_last())
    } else {
        s
    }
}

/// How many units of the buffer were filled, by the size in bytes.
pub open spec fn filled(buf: Seq<u16>, size: u32) -> int {
    if size / 2 < buf.len() {
        (size / 2) as int
    } else {
        buf.len() as int
    }
}

/// The value that was read, by the code, the buffer and the size in bytes.
pub open spec fn run_value(code: u32, buf: Seq<u16>, size: u32) -> Result<
    Option<Seq<char>>,
    Seq<char>,
> {
    if code == ERROR_FILE_NOT_FOUND {
        Ok(None)
    } else if code != 0 {
        Err("读取 Run 键失败: "@ + dec(code as nat))
    } else {
        Ok(Some(without_zeros(utf16_text(buf.take(filled(buf, size))))))
    }
}

fn strip_zeros(s: &str) -> (out: String)
    ensures
        out@ == without_zeros(s@),
{
    let v = chars_of(s);
    let mut hi: usize = v.len();
    assert(v@.take(v@.len() as int) =~= v@);
    while hi > 0 && v[hi - 1] == '\0'
        invariant
            hi <= v@.len(),
            without_zeros(v@) == without_zeros(v@.take(hi as int)),
        decreases hi,
    {
        assert(v@.take(hi as int).drop_last() =~= v@.take(hi - 1));
        hi = hi - 1;
    }
    assert(v@.subrange(0, hi as int) =~= v@.take(hi as int));
    text_of(&v, 0, hi)
}

/// Reads the registry value, by the code, the buffer and the size in bytes that the
/// system returned.
pub fn query_run_value(code: u32, buf: &Vec<u16>, size: u32) -> (r: Result<Option<String>, String>)
    ensures
        match r {
            Ok(Some(s)) => run_value(code, buf@, size) == Ok::<_, Seq<char>>(Some(s@)),
            Ok(None) => run_value(code, buf@, size) == Ok::<_, Seq<char>>(None::<Seq<char>>),
            Err(e) => run_value(code, buf@, size) == Err::<Option<Seq<char>>, _>(e@),
        },
{
    if code == ERROR_FILE_NOT_FOUND {
        return Ok(None);
    }
    if code != 0 {
        let number = dec_text(code as u64);
        return Err(concat2("读取 Run 键失败: ", number.as_str()));
    }
    let half: u32 = size / 2;
    let len: usize = if (half as u64) < buf.len() as u64 {
        half as usize
    } else {
        buf.len()
    };
    let text = decode_utf16(buf, len);
    Ok(Some(strip_zeros(text.as_str())))
}

/// The bytes of units, the lower byte of each first.
pub open spec fn unit_bytes(u: Seq<u16>) -> Seq<u8> {
    Seq::new(
        2 * u.len(),
        |i: int|
            if i % 2 == 0 {
                (u[i / 2] % 0x100) as u8
            } else {
                (u[i / 2] / 0x100) as u8
            },
    )
}

fn to_bytes(u: &Vec<u16>) -> (out: Vec<u8>)
    ensures
        out@ == unit_bytes(u@),
{
    let mut out: Vec<u8> = Vec::new();
    let mut i: usize = 0;
    while i < u.len()
        invariant
            i <= u@.len(),
            out@.len() == 2 * i,
            forall|k: int| 0 <= k < 2 * i ==> #[trigger] out@[k] == unit_bytes(u@)[k],
        decreases u@.len() - i,
    {
        out.push((u[i] % 0x100) as u8);
        out.push((u[i] / 0x100) as u8);
        i = i + 1;
    }
    assert(out@ =~= unit_bytes(u@));
    out
}

/// How far changing the registry value has come.
#[derive(Debug, Clone, Copy, PartialEq, Eq, Structural)]
pub enum RunPhase {
    /// The key is being opened.
    Opening,
    /// The value is being written or deleted.
    Changing,
    /// The key is being closed; changing the value gave this code.
    Closing(u32),
    /// There is nothing more to do.
    Finished,
}

/// Changing the registry value.
#[derive(Debug)]
pub struct RunChange {
    /// The bytes to write; the value is deleted where there are none.
    pub bytes: Option<Vec<u8>>,
    pub phase: RunPhase,
}

/// What the host has to do.
#[derive(Debug)]
pub enum RunAction {
    /// Open the key.
    Open,
    /// Write the bytes as the value.
    Write(Vec<u8>),
    /// Delete the value.
    Delete,
    /// Close the key.
    Close,
    /// Changing is over.
    Finish(Result<(), String>),
}

/// An action by its contents.
pub enum RunActionView {
    Open,
    Write(Seq<u8>),
    Delete,
    Close,
    Finish(Result<(), Seq<char>>),
}

impl View for RunAction {
    type V = RunActionView;

    open spec fn view(&self) -> RunActionView {
        match *self {
            RunAction::Open => RunActionView::Open,
            RunAction::Write(b) => RunActionView::Write(b@),
            RunAction::Delete => RunActionView::Delete,
            RunAction::Close => RunActionView::Close,
            RunAction::Finish(r) => RunActionView::Finish(
                match r {
                    Ok(_) => Ok(()),
                    Err(s) => Err(s@),
                },
            ),
        }
    }
}

/// What changing the value came to, by its code. A value that is not there counts as
/// deleted.
pub open spec fn change_result(writing: bool, code: u32) -> Result<(), Seq<char>> {
    if code == 0 || (!writing && code == ERROR_FILE_NOT_FOUND) {
        Ok(())
    } else if writing {
        Err("写入 Run 键值失败: "@ + dec(code as nat))
    } else {
        Err("删除 Run 键值失败: "@ + dec(code as nat))
    }
}

/// The bytes to write, if any.
pub open spec fn bytes_view(b: Option<Vec<u8>>) -> Option<Seq<u8>> {
    match b {
        Some(v) => Some(v@),
        None => None,
    }
}

/// What follows an answer: the next phase and the next action.
pub open spec fn run_stepped(bytes: Option<Seq<u8>>, phase: RunPhase, code: u32) -> (
    RunPhase,
    Option<RunActionView>,
) {
    match phase {
        RunPhase::Opening => if code != 0 {
            (
                RunPhase::Finished,
                Some(RunActionView::Finish(Err("打开 Run 键失败: "@ + dec(code as nat)))),
            )
        } else {
            (
                RunPhase::Changing,
                Some(
                    match bytes {
                        Some(b) => RunActionView::Write(b),
                        None => RunActionView::Delete,
                    },
                ),
            )
        },
        RunPhase::Changing => (RunPhase::Closing(code), Some(RunActionView::Close)),
        RunPhase::Closing(c) => (
            RunPhase::Finished,
            Some(RunActionView::Finish(change_result(bytes is Some, c))),
        ),
        RunPhase::Finished => (phase, None),
    }
}

/// An optional action by its contents.
pub open spec fn run_action_view(a: Option<RunAction>) -> Option<RunActionView> {
    match a {
        Some(x) => Some(x@),
        None => None,
    }
}

/// Begins to change the registry value: it is written with the command, or deleted.
pub fn set_run_value(enable: bool, data: &str) -> (r: (RunChange, RunAction))
    ensures
        r.0.phase == RunPhase::Opening,
        r.1@ == RunActionView::Open,
        bytes_view(r.0.bytes) == if enable {
            Some(unit_bytes(utf16_of(data@).push(0)))
        } else {
            None
        },
{
    let bytes = if enable {
        let wide = to_wide(data);
        Some(to_bytes(&wide))
    } else {
        None
    };
    (RunChange { bytes, phase: RunPhase::Opening }, RunAction::Open)
}

impl RunChange {
    /// Takes the code of the last action in and says what to do next.
    pub fn step(&mut self, code: u32) -> (action: Option<RunAction>)
        ensures
            bytes_view(final(self).bytes) == bytes_view(old(self).bytes),
            (final(self).phase, run_action_view(action)) == run_stepped(
                bytes_view(old(self).bytes),
                old(self).phase,
                code,
            ),
    {
        match self.phase {
            RunPhase::Opening => {
                if code != 0 {
                    self.phase = RunPhase::Finished;
                    let number = dec_text(code as u64);
                    let text = concat2("打开 Run 键失败: ", number.as_str());
                    return Some(RunAction::Finish(Err(text)));
                }
                self.phase = RunPhase::Changing;
                match &self.bytes {
                    Some(b) => {
                        let copy = b.clone();
                        assert(copy@ =~= b@);
                        Some(RunAction::Write(copy))
                    },
                    None => Some(RunAction::Delete),
                }
            },
            RunPhase::Changing => {
                self.phase = RunPhase::Closing(code);
                Some(RunAction::Close)
            },
            RunPhase::Closing(c) => {
                self.phase = RunPhase::Finished;
                let writing = self.bytes.is_some();
                if c == 0 || (!writing && c == ERROR_FILE_NOT_FOUND) {
                    return Some(RunAction::Finish(Ok(())));
                }
                let number = dec_text(c as u64);
                let text = if writing {
                    concat2("写入 Run 键值失败: ", number.as_str())
                } else {
                    concat2("删除 Run 键值失败: ", number.as_str())
                };
                Some(RunAction::Finish(Err(text)))
            },
            RunPhase::Finished => None,
        }
    }
}

// ---------------------------------------------------------------------------
// The settings file
// ---------------------------------------------------------------------------

/// The truth value that JSON text is, if it is one.
pub open spec fn truth_of(member: Option<Seq<char>>) -> Option<bool> {
    match member {
        Some(m) => if m == "true"@ {
            Some(true)
        } else if m == "false"@ {
            Some(false)
        } else {
            None
        },
        None => None,
    }
}

/// The truth value that JSON text is, if it is one.
pub fn read_truth(member: &Option<String>) -> (r: Option<bool>)
    ensures
        r == truth_of(text_view(*member)),
{
    match member {
        Some(m) => {
            if same_text(m.as_str(), "true") {
                Some(true)
            } else if same_text(m.as_str(), "false") {
                Some(false)
            } else {
                None
            }
        },
        None => None,
    }
}

/// What the settings file says, if it says anything.
pub open spec fn chosen_in(file: Option<Seq<char>>) -> Option<bool> {
    match file {
        Some(text) => truth_of(json_member_of(text, SETTING@)),
        None => None,
    }
}

/// What the settings file says, given its text if there is one.
pub fn load_enabled_from_file(file: &Option<String>) -> (r: Option<bool>)
    ensures
        r == chosen_in(text_view(*file)),
{
    match file {
        Some(text) => {
            let member = read_json_member(text.as_str(), SETTING);
            read_truth(&member)
        },
        None => None,
    }
}

/// The text of the settings file: what is written is what will be read.
pub fn settings_text(enabled: bool) -> (text: String)
    ensures
        text@ == bool_object(SETTING@, enabled),
        chosen_in(Some(text@)) == Some(enabled),
{
    let text = write_bool_object(SETTING, enabled);
    proof {
        reveal_strlit("true");
        reveal_strlit("false");
        assert("true"@[0] != "false"@[0]);
    }
    text
}

/// Writing the settings file: its path and its text.
pub fn save_enabled_to_file(appdata: &Option<String>, enabled: bool) -> (r: Result<
    (String, String),
    String,
>)
    ensures
        match *appdata {
            Some(dir) => {
                &&& r matches Ok(p)
                &&& p.0@ == joined(joined(dir@, "RouteTool"@), "ui_settings.json"@)
                &&& p.1@ == bool_object(SETTING@, enabled)
                &&& chosen_in(Some(p.1@)) == Some(enabled)
            },
            None => r matches Err(e) && e@ == "无法定位 APPDATA 目录"@,
        },
{
    match settings_path(appdata) {
        Some(path) => Ok((path, settings_text(enabled))),
        None => Err("无法定位 APPDATA 目录".to_owned()),
    }
}

// ---------------------------------------------------------------------------
// At startup, and when the user changes the setting
// ---------------------------------------------------------------------------

/// What startup comes to.
#[derive(Debug, Clone, Copy, PartialEq, Eq, Structural)]
pub struct Migration {
    /// Whether the program is to start with the system.
    pub enabled: bool,
    /// Whether the registry value is to be written (true) or deleted (false), if it is
    /// to be changed at all.
    pub change: Option<bool>,
}

/// What startup comes to: the user's choice decides, and without one the registry. The
/// registry is then brought in line.
pub open spec fn migration(
    chosen: Option<bool>,
    registry: Option<Seq<char>>,
    want: Seq<char>,
) -> Migration {
    let enabled = match chosen {
        Some(v) => v,
        None => registry is Some,
    };
    Migration {
        enabled,
        change: if enabled && registry != Some(want) {
            Some(true)
        } else if !enabled && registry is Some {
            Some(false)
        } else {
            None
        },
    }
}

/// Decides what startup comes to, by the user's choice, the registry value, and the
/// command that the registry is to hold.
pub fn migrate(chosen: Option<bool>, registry: &Option<String>, want: &str) -> (m: Migration)
    ensures
        m == migration(chosen, text_view(*registry), want@),
{
    let enabled = match chosen {
        Some(v) => v,
        None => registry.is_some(),
    };
    let change = match registry {
        Some(existing) => {
            if !enabled {
                Some(false)
            } else if !same_text(existing.as_str(), want) {
                Some(true)
            } else {
                None
            }
        },
        None => {
            if enabled {
                Some(true)
            } else {
                None
            }
        },
    };
    Migration { enabled, change }
}

/// How far settling the setting has come.
#[derive(Debug)]
pub enum SettingPhase {
    /// The registry value is being changed.
    Changing(RunChange),
    /// The settings file is being written.
    Writing,
    /// There is nothing more to do.
    Finished,
}

/// A phase by its contents.
pub enum SettingPhaseView {
    Changing(Option<Seq<u8>>, RunPhase),
    Writing,
    Finished,
}

impl View for SettingPhase {
    type V = SettingPhaseView;

    open spec fn view(&self) -> SettingPhaseView {
        match *self {
            SettingPhase::Changing(c) => SettingPhaseView::Changing(bytes_view(c.bytes), c.phase),
            SettingPhase::Writing => SettingPhaseView::Writing,
            SettingPhase::Finished => SettingPhaseView::Finished,
        }
    }
}

/// Settling whether the program starts with the system: first the registry, and the
/// settings file only once the registry agrees.
#[derive(Debug)]
pub struct SettingChange {
    /// Whether the program is to start with the system.
    pub enabled: bool,
    /// The directory of the user's application data, if it is known.
    pub appdata: Option<String>,
    pub phase: SettingPhase,
}

/// What the host has to do.
#[derive(Debug)]
pub enum SettingAction {
    /// Go on with the registry value.
    Run(RunAction),
    /// Write the text to the file with the path, and make its directory if need be.
    WriteFile(String, String),
    /// Settling is over.
    Finish(Result<bool, String>),
}

/// An action by its contents.
pub enum SettingActionView {
    Run(RunActionView),
    WriteFile(Seq<char>, Seq<char>),
    Finish(Result<bool, Seq<char>>),
}

impl View for SettingAction {
    type V = SettingActionView;

    open spec fn view(&self) -> SettingActionView {
        match *self {
            SettingAction::Run(a) => SettingActionView::Run(a@),
            SettingAction::WriteFile(path, text) => SettingActionView::WriteFile(path@, text@),
            SettingAction::Finish(r) => SettingActionView::Finish(
                match r {
                    Ok(b) => Ok(b),
                    Err(e) => Err(e@),
                },
            ),
        }
    }
}

/// An optional action by its contents.
pub open spec fn setting_action_view(a: Option<SettingAction>) -> Option<SettingActionView> {
    match a {
        Some(x) => Some(x@),
        None => None,
    }
}

/// What the host answers.
#[derive(Debug)]
pub enum SettingReply {
    /// The code of an action on the registry value.
    Code(u32),
    /// What writing the file came to.
    Written(Result<(), String>),
}

/// An answer by its contents.
pub enum SettingReplyView {
    Code(u32),
    Written(Result<(), Seq<char>>),
}

impl View for SettingReply {
    type V = SettingReplyView;

    open spec fn view(&self) -> SettingReplyView {
        match *self {
            SettingReply::Code(c) => SettingReplyView::Code(c),
            SettingReply::Written(r) => SettingReplyView::Written(
                match r {
                    Ok(_) => Ok(()),
                    Err(e) => Err(e@),
                },
            ),
        }
    }
}

/// Settling by its contents.
pub struct SettingView {
    pub enabled: bool,
    pub appdata: Option<Seq<char>>,
    pub phase: SettingPhaseView,
}

impl View for SettingChange {
    type V = SettingView;

    open spec fn view(&self) -> SettingView {
        SettingView {
            enabled: self.enabled,
            appdata: text_view(self.appdata),
            phase: self.phase@,
        }
    }
}

/// The bytes of a registry value: the text in UTF-16, with a zero behind it.
pub open spec fn value_bytes(data: Seq<char>) -> Seq<u8> {
    unit_bytes(utf16_of(data).push(0))
}

impl SettingView {
    /// Settling is over.
    pub open spec fn finished(self, r: Result<bool, Seq<char>>) -> (
        SettingView,
        SettingActionView,
    ) {
        (
            SettingView { phase: SettingPhaseView::Finished, ..self },
            SettingActionView::Finish(r),
        )
    }

    /// The registry agrees: the settings file is written, if it is known where it is.
    pub open spec fn writing(self) -> (SettingView, SettingActionView) {
        match self.appdata {
            Some(dir) => (
                SettingView { phase: SettingPhaseView::Writing, ..self },
                SettingActionView::WriteFile(
                    joined(joined(dir, "RouteTool"@), "ui_settings.json"@),
                    bool_object(SETTING@, self.enabled),
                ),
            ),
            None => self.finished(Err("无法定位 APPDATA 目录"@)),
        }
    }

    /// The registry value is to hold the command, or is to be deleted.
    pub open spec fn changing(self, command: Seq<char>) -> (SettingView, SettingActionView) {
        let bytes = if self.enabled {
            Some(value_bytes(command))
        } else {
            None
        };
        (
            SettingView { phase: SettingPhaseView::Changing(bytes, RunPhase::Opening), ..self },
            SettingActionView::Run(RunActionView::Open),
        )
    }

    /// What follows an answer. An answer that was not asked for changes nothing.
    pub open spec fn stepped(self, reply: SettingReplyView) -> (
        SettingView,
        Option<SettingActionView>,
    ) {
        match (self.phase, reply) {
            (SettingPhaseView::Changing(bytes, phase), SettingReplyView::Code(code)) => {
                let (next, action) = run_stepped(bytes, phase, code);
                match action {
                    Some(RunActionView::Finish(Ok(_))) => {
                        let (v, a) = self.writing();
                        (v, Some(a))
                    },
                    Some(RunActionView::Finish(Err(e))) => {
                        let (v, a) = self.finished(Err(e));
                        (v, Some(a))
                    },
                    Some(a) => (
                        SettingView { phase: SettingPhaseView::Changing(bytes, next), ..self },
                        Some(SettingActionView::Run(a)),
                    ),
                    None => (self, None),
                }
            },
            (SettingPhaseView::Writing, SettingReplyView::Written(r)) => {
                let (v, a) = self.finished(
                    match r {
                        Ok(_) => Ok(self.enabled),
                        Err(e) => Err(e),
                    },
                );
                (v, Some(a))
            },
            _ => (self, None),
        }
    }
}

/// The registry value as it was read, by its contents.
pub open spec fn registry_view(r: Result<Option<String>, String>) -> Result<
    Option<Seq<char>>,
    Seq<char>,
> {
    match r {
        Ok(v) => Ok(text_view(v)),
        Err(e) => Err(e@),
    }
}

/// How startup begins to settle the setting, by the settings file, what reading the
/// registry value came to, the directory of the application data, and the path of the
/// program. Where the registry value cannot be read, that is the end of it.
pub open spec fn startup(
    file: Option<Seq<char>>,
    registry: Result<Option<Seq<char>>, Seq<char>>,
    appdata: Option<Seq<char>>,
    exe: Option<Seq<char>>,
) -> (SettingView, SettingActionView) {
    match registry {
        Err(e) => (SettingView {
            enabled: false,
            appdata,
            phase: SettingPhaseView::Finished,
        }).finished(Err(e)),
        Ok(value) => {
            let m = migration(chosen_in(file), value, run_data(exe));
            let v = SettingView {
                enabled: m.enabled,
                appdata,
                phase: SettingPhaseView::Finished,
            };
            if m.change is Some {
                v.changing(run_data(exe))
            } else {
                v.writing()
            }
        },
    }
}

/// How carrying out the user's choice begins: the registry value is changed in any case.
pub open spec fn choice(enable: bool, appdata: Option<Seq<char>>, exe: Option<Seq<char>>) -> (
    SettingView,
    SettingActionView,
) {
    (SettingView { enabled: enable, appdata, phase: SettingPhaseView::Finished }).changing(
        run_data(exe),
    )
}

impl SettingChange {
    fn begin_write(&mut self) -> (action: SettingAction)
        ensures
            (final(self)@, action@) == old(self)@.writing(),
            action matches SettingAction::WriteFile(_, text) ==> chosen_in(Some(text@)) == Some(
                old(self).enabled,
            ),
    {
        match save_enabled_to_file(&self.appdata, self.enabled) {
            Ok((path, text)) => {
                self.phase = SettingPhase::Writing;
                SettingAction::WriteFile(path, text)
            },
            Err(e) => {
                self.phase = SettingPhase::Finished;
                SettingAction::Finish(Err(e))
            },
        }
    }

    fn begin_change(&mut self, command: &str) -> (action: SettingAction)
        ensures
            (final(self)@, action@) == old(self)@.changing(command@),
    {
        let (change, action) = set_run_value(self.enabled, command);
        self.phase = SettingPhase::Changing(change);
        SettingAction::Run(action)
    }

    /// Takes an answer in and says what to do next. What is written to the settings file
    /// reads back as the setting.
    pub fn step(&mut self, reply: SettingReply) -> (action: Option<SettingAction>)
        ensures
            (final(self)@, setting_action_view(action)) == old(self)@.stepped(reply@),
            action matches Some(SettingAction::WriteFile(_, text)) ==> chosen_in(Some(text@))
                == Some(old(self).enabled),
    {
        let mut phase = SettingPhase::Finished;
        std::mem::swap(&mut phase, &mut self.phase);
        match (phase, reply) {
            (SettingPhase::Changing(change), SettingReply::Code(code)) => {
                let mut change = change;
                match change.step(code) {
                    Some(RunAction::Finish(Ok(_))) => {
                        let action = self.begin_write();
                        Some(action)
                    },
                    Some(RunAction::Finish(Err(e))) => Some(SettingAction::Finish(Err(e))),
                    Some(next) => {
                        self.phase = SettingPhase::Changing(change);
                        Some(SettingAction::Run(next))
                    },
                    None => {
                        self.phase = SettingPhase::Changing(change);
                        None
                    },
                }
            },
            (SettingPhase::Writing, SettingReply::Written(r)) => Some(
                SettingAction::Finish(
                    match r {
                        Ok(_) => Ok(self.enabled),
                        Err(e) => Err(e),
                    },
                ),
            ),
            (phase, _) => {
                self.phase = phase;
                None
            },
        }
    }
}

/// Begins to settle at startup whether the program starts with the system, by the text of
/// the settings file, what reading the registry value came to, the directory of the
/// application data, and the path of the program.
pub fn init_and_migrate(
    file: &Option<String>,
    registry: Result<Option<String>, String>,
    appdata: &Option<String>,
    exe: &Option<String>,
) -> (r: (SettingChange, SettingAction))
    ensures
        (r.0@, r.1@) == startup(
            text_view(*file),
            registry_view(registry),
            text_view(*appdata),
            text_view(*exe),
        ),
        r.1 matches SettingAction::WriteFile(_, text) ==> chosen_in(Some(text@)) == Some(
            r.0.enabled,
        ),
{
    let mut s = SettingChange {
        enabled: false,
        appdata: clone_text(appdata),
        phase: SettingPhase::Finished,
    };
    match registry {
        Err(e) => (s, SettingAction::Finish(Err(e))),
        Ok(value) => {
            let chosen = load_enabled_from_file(file);
            let want = run_key_data(exe);
            let m = migrate(chosen, &value, want.as_str());
            s.enabled = m.enabled;
            let action = if m.change.is_some() {
                s.begin_change(want.as_str())
            } else {
                s.begin_write()
            };
            (s, action)
        },
    }
}

/// Begins to carry out the user's choice.
pub fn set_enabled(enable: bool, appdata: &Option<String>, exe: &Option<String>) -> (r: (
    SettingChange,
    SettingAction,
))
    ensures
        (r.0@, r.1@) == choice(enable, text_view(*appdata), text_view(*exe)),
{
    let mut s = SettingChange {
        enabled: enable,
        appdata: clone_text(appdata),
        phase: SettingPhase::Finished,
    };
    let data = run_key_data(exe);
    let action = s.begin_change(data.as_str());
    (s, action)
}

// ---------------------------------------------------------------------------
// Laws
// ---------------------------------------------------------------------------

/// The registry value after a change.
pub open spec fn changed(
    registry: Option<Seq<char>>,
    change: Option<bool>,
    want: Seq<char>,
) -> Option<Seq<char>> {
    match change {
        Some(true) => Some(want),
        Some(false) => None,
        None => registry,
    }
}

/// After startup the registry agrees with the setting, and another startup changes
/// nothing more.
pub proof fn startup_settles_the_registry(
    chosen: Option<bool>,
    registry: Option<Seq<char>>,
    want: Seq<char>,
)
    ensures
        ({
            let m = migration(chosen, registry, want);
            let after = changed(registry, m.change, want);
            &&& m.enabled ==> after == Some(want)
            &&& !m.enabled ==> after is None
            &&& migration(Some(m.enabled), after, want) == (Migration {
                enabled: m.enabled,
                change: None,
            })
        }),
{
}

/// Without a settings file an existing registry value counts as the user's choice and is
/// brought to the current form.
pub proof fn old_registry_value_is_inherited(registry: Seq<char>, want: Seq<char>)
    ensures
        migration(None, Some(registry), want).enabled,
        changed(Some(registry), migration(None, Some(registry), want).change, want) == Some(want),
{
}

/// The command in UTF-16, with a zero behind it, is read as the command.
pub proof fn lemma_command_text(exe: Option<Seq<char>>)
    ensures
        without_zeros(utf16_text(utf16_of(run_data(exe)).push(0))) == run_data(exe),
{
    let data = run_data(exe);
    let wide = utf16_of(data).push(0);
    assert(wide =~= utf16_of(data) + seq![0u16]);
    utf16_front_reads_back(data, seq![0u16]);
    reveal_with_fuel(utf16_text, 2);
    assert(seq![0u16].skip(1) =~= Seq::<u16>::empty());
    assert(utf16_text(seq![0u16]) =~= seq!['\0']);
    let read = utf16_text(wide);
    assert(read =~= data.push('\0'));
    reveal_strlit("\" --tray");
    assert(data.last() == 'y');
    assert(read.drop_last() =~= data);
    reveal_with_fuel(without_zeros, 2);
}

/// The command that was written to the registry is read back as it was: the value is
/// not taken for an outdated one.
pub proof fn run_command_reads_back(exe: Option<Seq<char>>, padding: Seq<u16>)
    requires
        2 * (utf16_of(run_data(exe)).len() + 1) <= u32::MAX,
    ensures
        ({
            let wide = utf16_of(run_data(exe)).push(0);
            run_value(0, wide + padding, (2 * wide.len()) as u32) == Ok::<_, Seq<char>>(
                Some(run_data(exe)),
            )
        }),
{
    let wide = utf16_of(run_data(exe)).push(0);
    assert((wide + padding).take(wide.len() as int) =~= wide);
    lemma_command_text(exe);
}

/// The command quotes the program and asks for the tray.
pub proof fn run_command_asks_for_the_tray(exe: Option<Seq<char>>)
    ensures
        run_data(exe).len() > 0,
        run_data(exe)[0] == '"',
        crate::text::contains_text(run_data(exe), "--tray"@),
{
    reveal_strlit("\"");
    reveal_strlit("\" --tray");
    reveal_strlit("--tray");
    let data = run_data(exe);
    let at = data.len() - 6;
    assert(data.subrange(at, at + 6) =~= "--tray"@);
    assert(crate::text::stands_at(data, "--tray"@, at));
}

} // verus!
