//! Where the core keeps its state, how files are read, and how they are replaced
//! without ever being half written.

use vstd::prelude::*;

use crate::error::{CoreError, ErrorView};
use crate::protocol::{AdapterSnapshot, AppConfig, ConfigView, RuntimeState, Timestamp};
use crate::text::{chars_of, code_of, concat2, concat3, concat4};

verus! {

/// The directory of the core's data.
pub const BASE_DIR: &'static str = r"C:\ProgramData\BypassTool";

/// The file of the configuration.
pub const CONFIG_FILE: &'static str = "config.json";

/// The file of the runtime state.
pub const RUNTIME_FILE: &'static str = "runtime_state.json";

/// The file of the adapter's backup.
pub const SNAPSHOT_FILE: &'static str = "adapter_snapshot.json";

/// Whether a path is a drive and nothing more, such as `C:`.
pub open spec fn is_drive(dir: Seq<char>) -> bool {
    &&& dir.len() == 2
    &&& 65 <= dir[0] as int <= 90 || 97 <= dir[0] as int <= 122
    &&& dir[1] == ':'
}

/// A path below a directory. What follows a bare drive is below the directory that the
/// drive is at.
pub open spec fn joined(dir: Seq<char>, leaf: Seq<char>) -> Seq<char> {
    if dir.len() == 0 || dir.last() == '\\' || dir.last() == '/' || is_drive(dir) {
        dir + leaf
    } else {
        dir + r"\"@ + leaf
    }
}

fn is_bare_drive(v: &Vec<char>) -> (r: bool)
    ensures
        r == is_drive(v@),
{
    if v.len() != 2 || v[1] != ':' {
        return false;
    }
    let n: u32 = code_of(v[0]);
    (65 <= n && n <= 90) || (97 <= n && n <= 122)
}

/// Makes a path below a directory.
pub fn join(dir: &str, leaf: &str) -> (path: String)
    ensures
        path@ == joined(dir@, leaf@),
{
    let v = chars_of(dir);
    if v.len() == 0 || v[v.len() - 1] == '\\' || v[v.len() - 1] == '/' || is_bare_drive(&v) {
        concat2(dir, leaf)
    } else {
        concat3(dir, r"\", leaf)
    }
}

/// The store: a directory.
#[derive(Debug)]
pub struct StateStore {
    base_dir: String,
}

impl View for StateStore {
    type V = Seq<char>;

    closed spec fn view(&self) -> Seq<char> {
        self.base_dir@
    }
}

/// What reading a file as JSON came to.
#[derive(Debug)]
pub enum JsonRead<T> {
    /// There is no such file.
    Missing,
    /// The file cannot be read, for this reason.
    Unreadable(String),
    /// The file does not hold what it should.
    Corrupt,
    /// The file holds this.
    Parsed(T),
}

/// The error of a file that cannot be read.
pub open spec fn read_error(path: Seq<char>, cause: Seq<char>) -> ErrorView {
    ErrorView::Persistence("读取 "@ + path + " 失败: "@ + cause)
}

impl Default for StateStore {
    fn default() -> (s: Self)
        ensures
            s@ == BASE_DIR@,
    {
        StateStore { base_dir: BASE_DIR.to_owned() }
    }
}

impl Clone for StateStore {
    fn clone(&self) -> (s: Self)
        ensures
            s@ == self@,
    {
        StateStore { base_dir: self.base_dir.clone() }
    }
}

impl StateStore {
    /// The store in a directory.
    pub fn new(base_dir: String) -> (s: StateStore)
        ensures
            s@ == base_dir@,
    {
        StateStore { base_dir }
    }

    /// The directory of the store.
    pub fn base_dir(&self) -> (dir: &str)
        ensures
            dir@ == self@,
    {
        self.base_dir.as_str()
    }

    /// The path of a file of the store.
    pub fn path(&self, file: &str) -> (path: String)
        ensures
            path@ == joined(self@, file@),
    {
        join(self.base_dir.as_str(), file)
    }

    /// The directory that has to exist before anything is written, logs included.
    pub fn ensure_dirs(&self) -> (dir: String)
        ensures
            dir@ == joined(self@, "logs"@),
    {
        self.path("logs")
    }

    /// What a file gives: nothing where it is missing or does not hold what it should.
    pub fn read_json<T>(&self, file: &str, read: JsonRead<T>) -> (r: Result<Option<T>, CoreError>)
        ensures
            match read {
                JsonRead::Missing => r matches Ok(None),
                JsonRead::Corrupt => r matches Ok(None),
                JsonRead::Parsed(v) => r matches Ok(Some(x)) && x == v,
                JsonRead::Unreadable(cause) => r matches Err(e) && e@ == read_error(
                    joined(self@, file@),
                    cause@,
                ),
            },
    {
        match read {
            JsonRead::Missing => Ok(None),
            JsonRead::Corrupt => Ok(None),
            JsonRead::Parsed(v) => Ok(Some(v)),
            JsonRead::Unreadable(cause) => {
                let path = self.path(file);
                Err(
                    CoreError::Persistence(
                        concat4("读取 ", path.as_str(), " 失败: ", cause.as_str()),
                    ),
                )
            },
        }
    }

    /// The stored configuration, or the initial one.
    pub fn load_config(&self, read: JsonRead<AppConfig>) -> (r: Result<AppConfig, CoreError>)
        ensures
            match read {
                JsonRead::Parsed(v) => r matches Ok(x) && x@ == v@,
                JsonRead::Unreadable(cause) => r matches Err(e) && e@ == read_error(
                    joined(self@, CONFIG_FILE@),
                    cause@,
                ),
                _ => r matches Ok(x) && x@ == ConfigView::initial(),
            },
    {
        match self.read_json(CONFIG_FILE, read) {
            Ok(Some(v)) => Ok(v),
            Ok(None) => Ok(AppConfig::default()),
            Err(e) => Err(e),
        }
    }

    /// The stored runtime state, or the initial one.
    pub fn load_runtime(&self, read: JsonRead<RuntimeState>, now: Timestamp) -> (r: Result<
        RuntimeState,
        CoreError,
    >)
        ensures
            match read {
                JsonRead::Parsed(v) => r matches Ok(x) && x == v,
                JsonRead::Unreadable(cause) => r matches Err(e) && e@ == read_error(
                    joined(self@, RUNTIME_FILE@),
                    cause@,
                ),
                _ => r matches Ok(x) && x == RuntimeState::initial(now),
            },
    {
        match self.read_json(RUNTIME_FILE, read) {
            Ok(Some(v)) => Ok(v),
            Ok(None) => Ok(RuntimeState::default_at(now)),
            Err(e) => Err(e),
        }
    }

    /// The stored backup, if there is one.
    pub fn load_snapshot(&self, read: JsonRead<AdapterSnapshot>) -> (r: Result<
        Option<AdapterSnapshot>,
        CoreError,
    >)
        ensures
            match read {
                JsonRead::Parsed(v) => r matches Ok(Some(x)) && x@ == v@,
                JsonRead::Unreadable(cause) => r matches Err(e) && e@ == read_error(
                    joined(self@, SNAPSHOT_FILE@),
                    cause@,
                ),
                _ => r matches Ok(None),
            },
    {
        self.read_json(SNAPSHOT_FILE, read)
    }

    /// Begins to write a file, given its contents as JSON text or why there are none.
    pub fn atomic_write_json(&self, file: &str, json: Result<String, String>) -> (r: Result<
        (AtomicWrite, WriteAction),
        CoreError,
    >)
        ensures
            match json {
                Ok(text) => r matches Ok(p) && p.0@ == write_of(self@, file@, text@) && p.1@
                    == WriteActionView::CreateDir(self@),
                Err(cause) => r matches Err(e) && e@ == ErrorView::Persistence(
                    "序列化失败: "@ + cause@,
                ),
            },
    {
        match json {
            Ok(text) => {
                let hidden = concat3(".", file, ".tmp");
                let w = AtomicWrite {
                    dir: self.base_dir.clone(),
                    temp: self.path(hidden.as_str()),
                    target: self.path(file),
                    text,
                    phase: WritePhase::CreatingDir,
                };
                Ok((w, WriteAction::CreateDir(self.base_dir.clone())))
            },
            Err(cause) => Err(CoreError::Persistence(concat2("序列化失败: ", cause.as_str()))),
        }
    }

    /// Begins to write the configuration.
    pub fn save_config(&self, json: Result<String, String>) -> (r: Result<
        (AtomicWrite, WriteAction),
        CoreError,
    >)
        ensures
            match json {
                Ok(text) => r matches Ok(p) && p.0@ == write_of(self@, CONFIG_FILE@, text@) && p.1@
                    == WriteActionView::CreateDir(self@),
                Err(cause) => r matches Err(e) && e@ == ErrorView::Persistence(
                    "序列化失败: "@ + cause@,
                ),
            },
    {
        self.atomic_write_json(CONFIG_FILE, json)
    }

    /// Begins to write the runtime state.
    pub fn save_runtime(&self, json: Result<String, String>) -> (r: Result<
        (AtomicWrite, WriteAction),
        CoreError,
    >)
        ensures
            match json {
                Ok(text) => r matches Ok(p) && p.0@ == write_of(self@, RUNTIME_FILE@, text@)
                    && p.1@ == WriteActionView::CreateDir(self@),
                Err(cause) => r matches Err(e) && e@ == ErrorView::Persistence(
                    "序列化失败: "@ + cause@,
                ),
            },
    {
        self.atomic_write_json(RUNTIME_FILE, json)
    }

    /// Begins to write the backup.
    pub fn save_snapshot(&self, json: Result<String, String>) -> (r: Result<
        (AtomicWrite, WriteAction),
        CoreError,
    >)
        ensures
            match json {
                Ok(text) => r matches Ok(p) && p.0@ == write_of(self@, SNAPSHOT_FILE@, text@)
                    && p.1@ == WriteActionView::CreateDir(self@),
                Err(cause) => r matches Err(e) && e@ == ErrorView::Persistence(
                    "序列化失败: "@ + cause@,
                ),
            },
    {
        self.atomic_write_json(SNAPSHOT_FILE, json)
    }

    /// The backup to remove, if there is one.
    pub fn clear_snapshot(&self, exists: bool) -> (path: Option<String>)
        ensures
            match path {
                Some(p) => exists && p@ == joined(self@, SNAPSHOT_FILE@),
                None => !exists,
            },
    {
        if exists {
            Some(self.path(SNAPSHOT_FILE))
        } else {
            None
        }
    }
}

/// The error of directories that cannot be created.
pub fn dirs_error(cause: &str) -> (e: CoreError)
    ensures
        e@ == ErrorView::Persistence("创建数据目录失败: "@ + cause@),
{
    CoreError::Persistence(concat2("创建数据目录失败: ", cause))
}

/// The error of a backup that cannot be removed.
pub fn clear_error(cause: &str) -> (e: CoreError)
    ensures
        e@ == ErrorView::Persistence("删除快照失败: "@ + cause@),
{
    CoreError::Persistence(concat2("删除快照失败: ", cause))
}

// ---------------------------------------------------------------------------
// Replacing a file
// ---------------------------------------------------------------------------

/// How far replacing a file has come.
#[derive(Debug, Clone, Copy, PartialEq, Eq, Structural)]
pub enum WritePhase {
    CreatingDir,
    CreatingTemp,
    Writing,
    Syncing,
    Renaming,
    SyncingDir,
    Finished,
}

/// Replacing a file: the contents go to another file first, which takes its place once
/// it is complete and on disk.
#[derive(Debug)]
pub struct AtomicWrite {
    pub dir: String,
    pub temp: String,
    pub target: String,
    pub text: String,
    pub phase: WritePhase,
}

/// Replacing a file, by its contents.
pub struct WriteView {
    pub dir: Seq<char>,
    pub temp: Seq<char>,
    pub target: Seq<char>,
    pub text: Seq<char>,
    pub phase: WritePhase,
}

impl View for AtomicWrite {
    type V = WriteView;

    open spec fn view(&self) -> WriteView {
        WriteView {
            dir: self.dir@,
            temp: self.temp@,
            target: self.target@,
            text: self.text@,
            phase: self.phase,
        }
    }
}

/// Replacing a file of a directory, at the beginning.
pub open spec fn write_of(dir: Seq<char>, file: Seq<char>, text: Seq<char>) -> WriteView {
    WriteView {
        dir,
        temp: joined(dir, "."@ + file + ".tmp"@),
        target: joined(dir, file),
        text,
        phase: WritePhase::CreatingDir,
    }
}

/// What the host has to do.
#[derive(Debug)]
pub enum WriteAction {
    /// Create the directory, if it is not there.
    CreateDir(String),
    /// Create the file, empty.
    CreateTemp(String),
    /// Write the text to the file.
    Write(String, String),
    /// Have what was written reach the disk.
    Sync(String),
    /// Let the first file take the place of the second.
    Rename(String, String),
    /// Have the new name reach the disk.
    SyncDir(String),
    /// Replacing is over.
    Finish(Result<(), CoreError>),
}

/// An action by its contents.
pub enum WriteActionView {
    CreateDir(Seq<char>),
    CreateTemp(Seq<char>),
    Write(Seq<char>, Seq<char>),
    Sync(Seq<char>),
    Rename(Seq<char>, Seq<char>),
    SyncDir(Seq<char>),
    Finish(Result<(), ErrorView>),
}

impl View for WriteAction {
    type V = WriteActionView;

    open spec fn view(&self) -> WriteActionView {
        match *self {
            WriteAction::CreateDir(p) => WriteActionView::CreateDir(p@),
            WriteAction::CreateTemp(p) => WriteActionView::CreateTemp(p@),
            WriteAction::Write(p, t) => WriteActionView::Write(p@, t@),
            WriteAction::Sync(p) => WriteActionView::Sync(p@),
            WriteAction::Rename(a, b) => WriteActionView::Rename(a@, b@),
            WriteAction::SyncDir(p) => WriteActionView::SyncDir(p@),
            WriteAction::Finish(r) => WriteActionView::Finish(
                match r {
                    Ok(_) => Ok(()),
                    Err(e) => Err(e@),
                },
            ),
        }
    }
}

/// An optional action by its contents.
pub open spec fn write_action_view(a: Option<WriteAction>) -> Option<WriteActionView> {
    match a {
        Some(x) => Some(x@),
        None => None,
    }
}

impl WriteView {
    /// The next phase, and the action that goes with it.
    pub open spec fn goes_on(self, phase: WritePhase, action: WriteActionView) -> (
        WriteView,
        Option<WriteActionView>,
    ) {
        (WriteView { phase, ..self }, Some(action))
    }

    /// What is said when the action of the phase fails.
    pub open spec fn complaint(self, cause: Seq<char>) -> Seq<char> {
        match self.phase {
            WritePhase::CreatingDir => "创建 "@ + self.dir + " 失败: "@ + cause,
            WritePhase::CreatingTemp => "创建临时文件失败: "@ + cause,
            WritePhase::Writing => "写入临时文件失败: "@ + cause,
            WritePhase::Syncing => "fsync 失败: "@ + cause,
            _ => "rename 到 "@ + self.target + " 失败: "@ + cause,
        }
    }

    /// What follows an answer: the next state and the next action. Whether the new name
    /// reaches the disk at once does not matter.
    pub open spec fn stepped(self, reply: Result<(), Seq<char>>) -> (
        WriteView,
        Option<WriteActionView>,
    ) {
        match (self.phase, reply) {
            (WritePhase::Finished, _) => (self, None),
            (WritePhase::SyncingDir, _) => self.goes_on(
                WritePhase::Finished,
                WriteActionView::Finish(Ok(())),
            ),
            (_, Err(cause)) => self.goes_on(
                WritePhase::Finished,
                WriteActionView::Finish(Err(ErrorView::Persistence(self.complaint(cause)))),
            ),
            (WritePhase::CreatingDir, _) => self.goes_on(
                WritePhase::CreatingTemp,
                WriteActionView::CreateTemp(self.temp),
            ),
            (WritePhase::CreatingTemp, _) => self.goes_on(
                WritePhase::Writing,
                WriteActionView::Write(self.temp, self.text),
            ),
            (WritePhase::Writing, _) => self.goes_on(
                WritePhase::Syncing,
                WriteActionView::Sync(self.temp),
            ),
            (WritePhase::Syncing, _) => self.goes_on(
                WritePhase::Renaming,
                WriteActionView::Rename(self.temp, self.target),
            ),
            (WritePhase::Renaming, _) => self.goes_on(
                WritePhase::SyncingDir,
                WriteActionView::SyncDir(self.dir),
            ),
        }
    }
}

impl AtomicWrite {
    fn complain(&self, cause: &str) -> (text: String)
        ensures
            text@ == self@.complaint(cause@),
    {
        match self.phase {
            WritePhase::CreatingDir => concat4("创建 ", self.dir.as_str(), " 失败: ", cause),
            WritePhase::CreatingTemp => concat2("创建临时文件失败: ", cause),
            WritePhase::Writing => concat2("写入临时文件失败: ", cause),
            WritePhase::Syncing => concat2("fsync 失败: ", cause),
            _ => concat4("rename 到 ", self.target.as_str(), " 失败: ", cause),
        }
    }

    /// Takes an answer in, with the reason of a failure, and says what to do next.
    pub fn step(&mut self, reply: Result<(), String>) -> (action: Option<WriteAction>)
        ensures
            (final(self)@, write_action_view(action)) == old(self)@.stepped(
                match reply {
                    Ok(_) => Ok(()),
                    Err(s) => Err(s@),
                },
            ),
    {
        match self.phase {
            WritePhase::Finished => {
                return None;
            },
            WritePhase::SyncingDir => {
                self.phase = WritePhase::Finished;
                return Some(WriteAction::Finish(Ok(())));
            },
            _ => {},
        }
        match reply {
            Err(cause) => {
                let text = self.complain(cause.as_str());
                self.phase = WritePhase::Finished;
                return Some(WriteAction::Finish(Err(CoreError::Persistence(text))));
            },
            Ok(_) => {},
        }
        match self.phase {
            WritePhase::CreatingDir => {
                self.phase = WritePhase::CreatingTemp;
                Some(WriteAction::CreateTemp(self.temp.clone()))
            },
            WritePhase::CreatingTemp => {
                self.phase = WritePhase::Writing;
                Some(WriteAction::Write(self.temp.clone(), self.text.clone()))
            },
            WritePhase::Writing => {
                self.phase = WritePhase::Syncing;
                Some(WriteAction::Sync(self.temp.clone()))
            },
            WritePhase::Syncing => {
                self.phase = WritePhase::Renaming;
                Some(WriteAction::Rename(self.temp.clone(), self.target.clone()))
            },
            _ => {
                self.phase = WritePhase::SyncingDir;
                Some(WriteAction::SyncDir(self.dir.clone()))
            },
        }
    }
}

// ---------------------------------------------------------------------------
// Laws
// ---------------------------------------------------------------------------

/// The files of a disk after an action has been performed.
pub open spec fn performed(
    disk: Map<Seq<char>, Seq<char>>,
    action: WriteActionView,
) -> Map<Seq<char>, Seq<char>> {
    match action {
        WriteActionView::CreateTemp(p) => disk.insert(p, seq![]),
        WriteActionView::Write(p, t) => disk.insert(p, t),
        WriteActionView::Rename(a, b) => disk.insert(b, disk[a]).remove(a),
        _ => disk,
    }
}

/// The disk after the first `n` actions of replacing a file have been performed.
pub open spec fn after_actions(
    disk: Map<Seq<char>, Seq<char>>,
    w: WriteView,
    n: nat,
) -> (WriteView, WriteActionView, Map<Seq<char>, Seq<char>>)
    decreases n,
{
    if n == 0 {
        (w, WriteActionView::CreateDir(w.dir), disk)
    } else {
        let (v, asked, d) = after_actions(disk, w, (n - 1) as nat);
        match v.stepped(Ok(())) {
            (next, Some(action)) => (next, action, performed(d, asked)),
            (next, None) => (next, asked, d),
        }
    }
}

/// Whether a disk differs from another at the two files at most.
pub open spec fn same_elsewhere(
    a: Map<Seq<char>, Seq<char>>,
    b: Map<Seq<char>, Seq<char>>,
    p: Seq<char>,
    q: Seq<char>,
) -> bool {
    forall|x: Seq<char>|
        x != p && x != q ==> {
            &&& #[trigger] a.dom().contains(x) <==> b.dom().contains(x)
            &&& a.dom().contains(x) ==> a[x] == b[x]
        }
}

/// However far replacing a file has come, the file is what it was or complete: it is
/// never half written. Other files are not touched.
pub proof fn file_is_old_or_new(
    disk: Map<Seq<char>, Seq<char>>,
    dir: Seq<char>,
    file: Seq<char>,
    text: Seq<char>,
    n: nat,
)
    ensures
        ({
            let w = write_of(dir, file, text);
            let (v, _, d) = after_actions(disk, w, n);
            &&& same_elsewhere(disk, d, w.temp, w.target)
            &&& v.phase == WritePhase::SyncingDir || v.phase == WritePhase::Finished ==> {
                &&& d.dom().contains(w.target)
                &&& d[w.target] == text
                &&& !d.dom().contains(w.temp)
            }
            &&& v.phase != WritePhase::SyncingDir && v.phase != WritePhase::Finished ==> {
                &&& d.dom().contains(w.target) <==> disk.dom().contains(w.target)
                &&& (disk.dom().contains(w.target) ==> d[w.target] == disk[w.target])
            }
        }),
{
    temporary_file_is_another(dir, file, text);
    lemma_write_progress(disk, write_of(dir, file, text), n);
}

proof fn lemma_write_progress(disk: Map<Seq<char>, Seq<char>>, w: WriteView, n: nat)
    requires
        w.temp != w.target,
        w.phase == WritePhase::CreatingDir,
    ensures
        ({
            let (v, asked, d) = after_actions(disk, w, n);
            &&& v == (WriteView { phase: v.phase, ..w })
            &&& same_elsewhere(disk, d, w.temp, w.target)
            &&& match v.phase {
                WritePhase::CreatingDir => asked == WriteActionView::CreateDir(w.dir) && d == disk,
                WritePhase::CreatingTemp => asked == WriteActionView::CreateTemp(w.temp) && d
                    == disk,
                WritePhase::Writing => {
                    &&& asked == WriteActionView::Write(w.temp, w.text)
                    &&& d.dom().contains(w.target) <==> disk.dom().contains(w.target)
                    &&& (disk.dom().contains(w.target) ==> d[w.target] == disk[w.target])
                },
                WritePhase::Syncing => {
                    &&& asked == WriteActionView::Sync(w.temp)
                    &&& d[w.temp] == w.text
                    &&& d.dom().contains(w.target) <==> disk.dom().contains(w.target)
                    &&& (disk.dom().contains(w.target) ==> d[w.target] == disk[w.target])
                },
                WritePhase::Renaming => {
                    &&& asked == WriteActionView::Rename(w.temp, w.target)
                    &&& d[w.temp] == w.text
                    &&& d.dom().contains(w.target) <==> disk.dom().contains(w.target)
                    &&& (disk.dom().contains(w.target) ==> d[w.target] == disk[w.target])
                },
                WritePhase::SyncingDir => {
                    &&& asked == WriteActionView::SyncDir(w.dir)
                    &&& d.dom().contains(w.target)
                    &&& d[w.target] == w.text
                    &&& !d.dom().contains(w.temp)
                },
                WritePhase::Finished => {
                    &&& asked == WriteActionView::Finish(Ok(()))
                    &&& d.dom().contains(w.target)
                    &&& d[w.target] == w.text
                    &&& !d.dom().contains(w.temp)
                },
            }
        }),
    decreases n,
{
    if n > 0 {
        lemma_write_progress(disk, w, (n - 1) as nat);
        let (v0, asked0, d0) = after_actions(disk, w, (n - 1) as nat);
        let (v, asked, d) = after_actions(disk, w, n);
        assert forall|x: Seq<char>| x != w.temp && x != w.target implies {
            &&& #[trigger] disk.dom().contains(x) <==> d.dom().contains(x)
            &&& disk.dom().contains(x) ==> disk[x] == d[x]
        } by {
            assert(disk.dom().contains(x) <==> d0.dom().contains(x));
        }
    }
}

/// When replacing has succeeded, the file holds the new text and no other file is left
/// behind.
pub proof fn finished_write_leaves_only_the_file(
    disk: Map<Seq<char>, Seq<char>>,
    dir: Seq<char>,
    file: Seq<char>,
    text: Seq<char>,
)
    ensures
        ({
            let w = write_of(dir, file, text);
            let (v, asked, d) = after_actions(disk, w, 6);
            &&& v.phase == WritePhase::Finished
            &&& asked == WriteActionView::Finish(Ok(()))
            &&& d.dom().contains(w.target)
            &&& d[w.target] == text
            &&& !d.dom().contains(w.temp)
        }),
{
    reveal_with_fuel(after_actions, 7);
    temporary_file_is_another(dir, file, text);
    lemma_write_progress(disk, write_of(dir, file, text), 6);
}

/// The file that is written first is never the one that is replaced.
pub proof fn temporary_file_is_another(dir: Seq<char>, file: Seq<char>, text: Seq<char>)
    ensures
        write_of(dir, file, text).temp != write_of(dir, file, text).target,
{
    reveal_strlit(".");
    reveal_strlit(".tmp");
    reveal_strlit(r"\");
    let w = write_of(dir, file, text);
    assert(w.temp.len() == w.target.len() + 5);
}

/// The core's logs are looked for where its store keeps them.
pub proof fn logs_are_below_the_store()
    ensures
        crate::logs::CORE_LOG_DIR@ == joined(BASE_DIR@, "logs"@),
{
    reveal_strlit(r"C:\ProgramData\BypassTool\logs");
    reveal_strlit(r"C:\ProgramData\BypassTool");
    reveal_strlit(r"\");
    reveal_strlit("logs");
    assert(crate::logs::CORE_LOG_DIR@ =~= joined(BASE_DIR@, "logs"@));
}

} // verus!
