//! What is kept on disk and in the registry, and how it gets there.

use vstd::prelude::*;

use crate::autostart::{
    bytes_view, choice, chosen_in, migration, registry_view, run_action_view, run_data, run_stepped,
    run_value, setting_action_view, startup, unit_bytes, value_bytes, without_zeros, RunAction,
    RunActionView, RunPhase, SettingAction, SettingActionView, SettingChange, SettingPhase,
    SettingPhaseView, SettingReply, SettingReplyView, SettingView,
};
use crate::encoding::{utf16_front_reads_back, utf16_of, utf16_text};
use crate::error::ErrorView;
use crate::json::{bool_object, json_chars, json_member_of, json_quoted};
use crate::number::dec;
use crate::state_store::{
    joined, read_error, write_action_view, write_of, AtomicWrite, WriteAction, WriteActionView,
    WritePhase, WriteView, BASE_DIR, CONFIG_FILE, RUNTIME_FILE, SNAPSHOT_FILE,
};

verus! {

// ---------------------------------------------------------------------------
// Paths
// ---------------------------------------------------------------------------

/// Whether a path is the letter of a drive with a colon.
pub open spec fn is_letter_with_colon(dir: Seq<char>) -> bool {
    &&& dir.len() == 2
    &&& ('A' <= dir[0] <= 'Z' || 'a' <= dir[0] <= 'z')
    &&& dir[1] == ':'
}

/// A file is below a directory with one separator between them; none is put where there is
/// one already, where there is no directory, and behind a bare drive.
pub proof fn one_separator_is_put_between(dir: Seq<char>, leaf: Seq<char>)
    ensures
        ({
            let bare = dir.len() == 0 || dir.last() == '\\' || dir.last() == '/'
                || is_letter_with_colon(dir);
            &&& bare ==> joined(dir, leaf) == dir + leaf
            &&& !bare ==> joined(dir, leaf) == dir.push('\\') + leaf
        }),
{
    reveal_strlit(r"\");
    assert(dir + r"\"@ + leaf =~= dir.push('\\') + leaf);
}

/// The names of the store and its files.
pub proof fn files_have_their_names()
    ensures
        BASE_DIR@ == r"C:\ProgramData\BypassTool"@,
        CONFIG_FILE@ == "config.json"@,
        RUNTIME_FILE@ == "runtime_state.json"@,
        SNAPSHOT_FILE@ == "adapter_snapshot.json"@,
{
}

/// The error of a file that cannot be read names the file and the cause.
pub proof fn unreadable_file_is_named(path: Seq<char>, cause: Seq<char>)
    ensures
        read_error(path, cause) == ErrorView::Persistence(
            "读取 "@ + path + " 失败: "@ + cause,
        ),
{
}

// ---------------------------------------------------------------------------
// Replacing a file
// ---------------------------------------------------------------------------

/// A file is replaced by way of a hidden one beside it.
pub proof fn file_is_replaced_by_way_of_another(dir: Seq<char>, file: Seq<char>, text: Seq<char>)
    ensures
        ({
            let w = write_of(dir, file, text);
            &&& w.dir == dir
            &&& w.target == joined(dir, file)
            &&& w.temp == joined(dir, "."@ + file + ".tmp"@)
            &&& w.text == text
            &&& w.phase is CreatingDir
        }),
{
}

/// Where nothing fails, the directory is created, then the hidden file, the text is written
/// to it and brought to disk, it takes the place of the file, and that is brought to disk,
/// too, as well as can be.
pub proof fn replacing_goes_step_by_step(w: WriteView, last: Result<(), Seq<char>>)
    requires
        w.phase is CreatingDir,
    ensures
        ({
            let good = Ok::<(), Seq<char>>(());
            let a = w.stepped(good);
            let b = a.0.stepped(good);
            let c = b.0.stepped(good);
            let d = c.0.stepped(good);
            let e = d.0.stepped(good);
            let f = e.0.stepped(last);
            &&& a.1 == Some(WriteActionView::CreateTemp(w.temp))
            &&& b.1 == Some(WriteActionView::Write(w.temp, w.text))
            &&& c.1 == Some(WriteActionView::Sync(w.temp))
            &&& d.1 == Some(WriteActionView::Rename(w.temp, w.target))
            &&& e.1 == Some(WriteActionView::SyncDir(w.dir))
            &&& f.1 == Some(WriteActionView::Finish(Ok(())))
            &&& f.0.phase is Finished
            &&& f.0.stepped(last) == (f.0, None::<WriteActionView>)
        }),
{
}

/// A step that fails ends it, with what failed and why.
pub proof fn failed_step_ends_replacing(w: WriteView, cause: Seq<char>)
    requires
        !(w.phase is SyncingDir),
        !(w.phase is Finished),
    ensures
        w.stepped(Err(cause)) == (
            WriteView { phase: WritePhase::Finished, ..w },
            Some(
                WriteActionView::Finish(
                    Err(
                        ErrorView::Persistence(
                            match w.phase {
                                WritePhase::CreatingDir => "创建 "@ + w.dir + " 失败: "@ + cause,
                                WritePhase::CreatingTemp => "创建临时文件失败: "@ + cause,
                                WritePhase::Writing => "写入临时文件失败: "@ + cause,
                                WritePhase::Syncing => "fsync 失败: "@ + cause,
                                _ => "rename 到 "@ + w.target + " 失败: "@ + cause,
                            },
                        ),
                    ),
                ),
            ),
        ),
{
}

/// What the host is asked for is what was decided.
pub proof fn host_writes_what_was_decided(w: AtomicWrite, a: WriteAction)
    ensures
        w@.dir == w.dir@,
        w@.temp == w.temp@,
        w@.target == w.target@,
        w@.text == w.text@,
        w@.phase == w.phase,
        write_action_view(None) is None,
        write_action_view(Some(a)) == Some(a@),
        a matches WriteAction::CreateDir(p) ==> a@ == WriteActionView::CreateDir(p@),
        a matches WriteAction::CreateTemp(p) ==> a@ == WriteActionView::CreateTemp(p@),
        a matches WriteAction::Write(p, t) ==> a@ == WriteActionView::Write(p@, t@),
        a matches WriteAction::Sync(p) ==> a@ == WriteActionView::Sync(p@),
        a matches WriteAction::Rename(p, q) ==> a@ == WriteActionView::Rename(p@, q@),
        a matches WriteAction::SyncDir(p) ==> a@ == WriteActionView::SyncDir(p@),
        a matches WriteAction::Finish(Ok(_)) ==> a@ == WriteActionView::Finish(Ok(())),
        a matches WriteAction::Finish(Err(e)) ==> a@ == WriteActionView::Finish(Err(e@)),
{
}

// ---------------------------------------------------------------------------
// The registry value
// ---------------------------------------------------------------------------

/// The command is the program between quotes with its option; where its path is not known,
/// its name.
pub proof fn command_quotes_the_program(p: Seq<char>)
    ensures
        run_data(Some(p)) == seq!['"'] + p + "\" --tray"@,
        run_data(None) == "\"route-tool-ui.exe\" --tray"@,
{
    reveal_strlit("\"");
    reveal_strlit("\" --tray");
    reveal_strlit("route-tool-ui.exe");
    reveal_strlit("\"route-tool-ui.exe\" --tray");
    assert("\""@ =~= seq!['"']);
    assert(run_data(Some(p)) =~= seq!['"'] + p + "\" --tray"@);
    assert(run_data(None) =~= "\"route-tool-ui.exe\" --tray"@);
}

/// Whether there is nothing but zeros.
pub open spec fn is_zeros(s: Seq<char>) -> bool {
    forall|i: int| 0 <= i < s.len() ==> #[trigger] s[i] == '\0'
}

/// Zeros at the end of a text are taken away, and nothing else.
pub proof fn zeros_at_the_end_are_taken_away(s: Seq<char>, z: Seq<char>)
    requires
        s.len() > 0 ==> s.last() != '\0',
        is_zeros(z),
    ensures
        without_zeros(s + z) == s,
    decreases z.len(),
{
    let all = s + z;
    if z.len() > 0 {
        assert(z[z.len() - 1] == '\0');
        assert(all.drop_last() =~= s + z.drop_last());
        assert forall|i: int| 0 <= i < z.drop_last().len() implies #[trigger] z.drop_last()[i]
            == '\0' by {
            assert(z[i] == z.drop_last()[i]);
        }
        zeros_at_the_end_are_taken_away(s, z.drop_last());
    } else {
        assert(all =~= s);
    }
}

/// A value that is not there is no failure; any other code is one, and is told.
pub proof fn missing_value_is_no_failure(code: u32, buf: Seq<u16>, size: u32)
    ensures
        run_value(2, buf, size) == Ok::<_, Seq<char>>(None::<Seq<char>>),
        code != 0 && code != 2 ==> run_value(code, buf, size) == Err::<Option<Seq<char>>, _>(
            "读取 Run 键失败: "@ + dec(code as nat),
        ),
{
}

/// The value is the text in so many bytes of the buffer, without zeros at its end; what
/// follows in the buffer does not matter.
pub proof fn value_is_as_long_as_the_system_says(
    s: Seq<char>,
    zeros: nat,
    rest: Seq<u16>,
    odd: bool,
)
    requires
        s.len() > 0 ==> s.last() != '\0',
        2 * (utf16_of(s).len() + zeros) + 1 <= u32::MAX,
    ensures
        ({
            let u = utf16_of(s) + Seq::new(zeros, |i: int| 0u16);
            let size = (2 * u.len() + (if odd {
                1int
            } else {
                0
            })) as u32;
            run_value(0, u + rest, size) == Ok::<_, Seq<char>>(Some(s))
        }),
{
    let z = Seq::new(zeros, |i: int| 0u16);
    let u = utf16_of(s) + z;
    assert((u + rest).take(u.len() as int) =~= u);
    utf16_front_reads_back(s, z);
    lemma_zero_units(zeros);
    zeros_at_the_end_are_taken_away(s, utf16_text(z));
}

proof fn lemma_zero_units(n: nat)
    ensures
        is_zeros(utf16_text(Seq::new(n, |i: int| 0u16))),
    decreases n,
{
    let z = Seq::new(n, |i: int| 0u16);
    if n > 0 {
        lemma_zero_units((n - 1) as nat);
        let rest = Seq::new((n - 1) as nat, |i: int| 0u16);
        assert(z.skip(1) =~= rest);
        let t = utf16_text(z);
        assert(t =~= seq!['\0'] + utf16_text(rest));
        assert forall|i: int| 0 <= i < t.len() implies #[trigger] t[i] == '\0' by {
            if i > 0 {
                assert(t[i] == utf16_text(rest)[i - 1]);
            }
        }
    }
}

/// A value that the buffer cannot hold is read as far as the buffer goes.
pub proof fn value_ends_with_the_buffer(buf: Seq<u16>, size: u32)
    requires
        size >= 2 * buf.len(),
    ensures
        run_value(0, buf, size) == Ok::<_, Seq<char>>(Some(without_zeros(utf16_text(buf)))),
{
    assert(buf.take(buf.len() as int) =~= buf);
}

/// Each unit is written as two bytes, the lower one first; a text is closed with a zero.
pub proof fn units_are_written_low_byte_first(u: Seq<u16>, i: int, data: Seq<char>)
    requires
        0 <= i < u.len(),
    ensures
        unit_bytes(u).len() == 2 * u.len(),
        unit_bytes(u)[2 * i] + 256 * unit_bytes(u)[2 * i + 1] == u[i],
        value_bytes(data) == unit_bytes(utf16_of(data).push(0)),
{
    let b = unit_bytes(u);
    assert(b[2 * i] == (u[i] % 0x100) as u8);
    assert(b[2 * i + 1] == (u[i] / 0x100) as u8);
}

/// The key is opened, the value is written where there is something to write and deleted
/// where there is not, the key is closed, and then it is said how the change went, whatever
/// closing came to.
pub proof fn value_is_changed_between_open_and_close(
    bytes: Option<Seq<u8>>,
    code: u32,
    closed: u32,
)
    ensures
        ({
            let a = run_stepped(bytes, RunPhase::Opening, 0);
            let b = run_stepped(bytes, a.0, code);
            let c = run_stepped(bytes, b.0, closed);
            &&& bytes matches Some(x) ==> a.1 == Some(RunActionView::Write(x))
            &&& bytes is None ==> a.1 == Some(RunActionView::Delete)
            &&& b.1 == Some(RunActionView::Close)
            &&& c.0 is Finished
            &&& c.1 == Some(
                RunActionView::Finish(
                    if code == 0 || (bytes is None && code == 2) {
                        Ok(())
                    } else if bytes is Some {
                        Err("写入 Run 键值失败: "@ + dec(code as nat))
                    } else {
                        Err("删除 Run 键值失败: "@ + dec(code as nat))
                    },
                ),
            )
        }),
{
}

/// A key that cannot be opened ends it; afterwards nothing more is done.
pub proof fn closed_key_ends_the_change(bytes: Option<Seq<u8>>, code: u32)
    ensures
        code != 0 ==> run_stepped(bytes, RunPhase::Opening, code) == (
            RunPhase::Finished,
            Some(RunActionView::Finish(Err("打开 Run 键失败: "@ + dec(code as nat)))),
        ),
        run_stepped(bytes, RunPhase::Finished, code) == (
            RunPhase::Finished,
            None::<RunActionView>,
        ),
{
}

// ---------------------------------------------------------------------------
// The setting
// ---------------------------------------------------------------------------

/// The settings file says what the member in it says, and nothing if there is no such member
/// or it is no truth value.
pub proof fn settings_file_says_what_its_member_says(text: Seq<char>)
    ensures
        ({
            let m = json_member_of(text, "launch_at_startup"@);
            &&& m == Some("true"@) ==> chosen_in(Some(text)) == Some(true)
            &&& m == Some("false"@) ==> chosen_in(Some(text)) == Some(false)
            &&& m != Some("true"@) && m != Some("false"@) ==> chosen_in(Some(text)) is None
        }),
        chosen_in(None) is None,
{
    reveal_strlit("true");
    reveal_strlit("false");
    assert("true"@.len() == 4 && "false"@.len() == 5);
    let m = json_member_of(text, "launch_at_startup"@);
    match m {
        Some(x) => {
            if x == "true"@ {
                assert(m == Some("true"@));
            }
            if x == "false"@ {
                assert(m == Some("false"@));
            }
        },
        None => {},
    }
}

/// The text of the settings file.
pub proof fn settings_file_has_one_member()
    ensures
        bool_object("launch_at_startup"@, true) == "{\n  \"launch_at_startup\": true\n}"@,
        bool_object("launch_at_startup"@, false) == "{\n  \"launch_at_startup\": false\n}"@,
{
    reveal_strlit("launch_at_startup");
    reveal_strlit("{\n  \"launch_at_startup\": true\n}");
    reveal_strlit("{\n  \"launch_at_startup\": false\n}");
    reveal_strlit("{\n  ");
    reveal_strlit(": ");
    reveal_strlit("\n}");
    reveal_strlit("true");
    reveal_strlit("false");
    let s = "launch_at_startup"@;
    lemma_plain_text(s);
    assert(json_quoted(s) =~= seq!['"'] + s + seq!['"']);
    assert(bool_object(s, true) =~= "{\n  \"launch_at_startup\": true\n}"@);
    assert(bool_object(s, false) =~= "{\n  \"launch_at_startup\": false\n}"@);
}

proof fn lemma_plain_text(s: Seq<char>)
    requires
        forall|i: int| 0 <= i < s.len() ==> (#[trigger] s[i] == '_' || 'a' <= s[i] <= 'z'),
    ensures
        json_chars(s) == s,
    decreases s.len(),
{
    if s.len() > 0 {
        assert forall|i: int| 0 <= i < s.drop_last().len() implies (#[trigger] s.drop_last()[i]
            == '_' || 'a' <= s.drop_last()[i] <= 'z') by {
            assert(s[i] == s.drop_last()[i]);
        }
        lemma_plain_text(s.drop_last());
        let c = s[s.len() - 1];
        assert(c == '_' || 'a' <= c <= 'z');
        assert(json_chars(s) =~= s);
    }
}

/// The user's choice counts, and without one whether there is a value. The value is changed
/// exactly if it is not what the setting calls for.
pub proof fn choice_comes_before_the_registry(
    chosen: Option<bool>,
    registry: Option<Seq<char>>,
    want: Seq<char>,
)
    ensures
        ({
            let m = migration(chosen, registry, want);
            &&& chosen matches Some(v) ==> m.enabled == v
            &&& chosen is None ==> m.enabled == registry is Some
            &&& m.change == Some(true) <==> m.enabled && registry != Some(want)
            &&& m.change == Some(false) <==> !m.enabled && registry is Some
            &&& m.change is None <==> registry == if m.enabled {
                Some(want)
            } else {
                None
            }
        }),
{
}

/// Whether the action writes the setting to its file below the directory.
pub open spec fn writes_setting(a: SettingActionView, dir: Seq<char>, enabled: bool) -> bool {
    a == SettingActionView::WriteFile(
        joined(joined(dir, "RouteTool"@), "ui_settings.json"@),
        if enabled {
            "{\n  \"launch_at_startup\": true\n}"@
        } else {
            "{\n  \"launch_at_startup\": false\n}"@
        },
    )
}

/// Carrying out a choice begins with the key, whatever the registry holds: the command is
/// written or the value deleted, and only then the setting is written to its file.
pub proof fn choice_goes_step_by_step(
    enable: bool,
    dir: Seq<char>,
    exe: Seq<char>,
    closed: u32,
)
    ensures
        ({
            let begun = choice(enable, Some(dir), Some(exe));
            let a = begun.0.stepped(SettingReplyView::Code(0));
            let b = a.0.stepped(SettingReplyView::Code(0));
            let c = b.0.stepped(SettingReplyView::Code(closed));
            let d = c.0.stepped(SettingReplyView::Written(Ok(())));
            let command = seq!['"'] + exe + "\" --tray"@;
            &&& begun.1 == SettingActionView::Run(RunActionView::Open)
            &&& enable ==> a.1 == Some(
                SettingActionView::Run(
                    RunActionView::Write(unit_bytes(utf16_of(command).push(0))),
                ),
            )
            &&& !enable ==> a.1 == Some(SettingActionView::Run(RunActionView::Delete))
            &&& b.1 == Some(SettingActionView::Run(RunActionView::Close))
            &&& c.1 matches Some(w) && writes_setting(w, dir, enable)
            &&& d.1 == Some(SettingActionView::Finish(Ok(enable)))
            &&& d.0.phase is Finished
        }),
{
    command_quotes_the_program(exe);
    settings_file_has_one_member();
}

/// A value that cannot be changed ends it with the reason, and so does a file that cannot be
/// written; a value that was not there counts as deleted.
pub proof fn failed_setting_is_reported(
    enable: bool,
    appdata: Option<Seq<char>>,
    exe: Option<Seq<char>>,
    code: u32,
    closed: u32,
    e: Seq<char>,
)
    requires
        code != 0,
    ensures
        ({
            let begun = choice(enable, appdata, exe);
            let shut = begun.0.stepped(SettingReplyView::Code(code));
            let open = begun.0.stepped(SettingReplyView::Code(0));
            let b = open.0.stepped(SettingReplyView::Code(code));
            let c = b.0.stepped(SettingReplyView::Code(closed));
            &&& shut.0.phase is Finished
            &&& shut.1 == Some(
                SettingActionView::Finish(Err("打开 Run 键失败: "@ + dec(code as nat))),
            )
            &&& enable ==> c.0.phase is Finished && c.1 == Some(
                SettingActionView::Finish(Err("写入 Run 键值失败: "@ + dec(code as nat))),
            )
            &&& !enable && code != 2 ==> c.0.phase is Finished && c.1 == Some(
                SettingActionView::Finish(Err("删除 Run 键值失败: "@ + dec(code as nat))),
            )
            &&& !enable && code == 2 && appdata is Some ==> c.0.phase is Writing && (
            c.1 matches Some(w) && writes_setting(w, appdata->0, false))
            &&& c.0.phase is Writing ==> c.0.stepped(SettingReplyView::Written(Err(e))).1 == Some(
                SettingActionView::Finish(Err(e)),
            )
        }),
{
    settings_file_has_one_member();
}

/// Where it is not known where settings are kept, that is the end of it, after the registry
/// has been changed.
pub proof fn unknown_place_is_reported(enable: bool, exe: Option<Seq<char>>, closed: u32)
    ensures
        ({
            let a = choice(enable, None, exe).0.stepped(SettingReplyView::Code(0));
            let b = a.0.stepped(SettingReplyView::Code(0));
            let c = b.0.stepped(SettingReplyView::Code(closed));
            &&& c.0.phase is Finished
            &&& c.1 == Some(SettingActionView::Finish(Err("无法定位 APPDATA 目录"@)))
        }),
{
}

/// An answer that was not asked for changes nothing.
pub proof fn unasked_settings_answers_are_ignored(s: SettingView, reply: SettingReplyView)
    requires
        s.phase is Finished || (s.phase is Writing && reply is Code) || (s.phase is Changing
            && reply is Written),
    ensures
        s.stepped(reply) == (s, None::<SettingActionView>),
{
}

/// Startup goes by the settings file, and without one by the registry. It changes the value
/// only if it is not what the setting calls for; otherwise it only writes the file.
pub proof fn startup_goes_by_file_and_registry(
    file: Option<Seq<char>>,
    registry: Option<Seq<char>>,
    dir: Seq<char>,
    exe: Seq<char>,
)
    ensures
        ({
            let begun = startup(file, Ok(registry), Some(dir), Some(exe));
            let command = seq!['"'] + exe + "\" --tray"@;
            let enabled = match chosen_in(file) {
                Some(v) => v,
                None => registry is Some,
            };
            let agrees = registry == if enabled {
                Some(command)
            } else {
                None
            };
            &&& begun.0.enabled == enabled
            &&& begun.0.appdata == Some(dir)
            &&& agrees ==> writes_setting(begun.1, dir, enabled) && begun.0.phase is Writing
            &&& !agrees ==> begun == choice(enabled, Some(dir), Some(exe))
        }),
{
    command_quotes_the_program(exe);
    settings_file_has_one_member();
}

/// A registry value that cannot be read ends startup with the reason.
pub proof fn unreadable_registry_ends_startup(
    file: Option<Seq<char>>,
    e: Seq<char>,
    appdata: Option<Seq<char>>,
    exe: Option<Seq<char>>,
)
    ensures
        startup(file, Err(e), appdata, exe).1 == SettingActionView::Finish(Err(e)),
        startup(file, Err(e), appdata, exe).0.phase is Finished,
        !startup(file, Err(e), appdata, exe).0.enabled,
        startup(file, Err(e), appdata, exe).0.appdata == appdata,
{
}

/// What the host is asked for, and what it answers, is what was meant.
pub proof fn host_settles_what_was_decided(
    s: SettingChange,
    a: SettingAction,
    r: RunAction,
    reply: SettingReply,
)
    ensures
        s@.enabled == s.enabled,
        s.appdata matches Some(d) ==> s@.appdata == Some(d@),
        s.appdata is None ==> s@.appdata is None,
        s.phase matches SettingPhase::Changing(c) ==> s@.phase == SettingPhaseView::Changing(
            bytes_view(c.bytes),
            c.phase,
        ),
        s.phase is Writing ==> s@.phase is Writing,
        s.phase is Finished ==> s@.phase is Finished,
        setting_action_view(None) is None,
        setting_action_view(Some(a)) == Some(a@),
        a matches SettingAction::Run(x) ==> a@ == SettingActionView::Run(x@),
        a matches SettingAction::WriteFile(p, t) ==> a@ == SettingActionView::WriteFile(p@, t@),
        a matches SettingAction::Finish(Ok(b)) ==> a@ == SettingActionView::Finish(Ok(b)),
        a matches SettingAction::Finish(Err(e)) ==> a@ == SettingActionView::Finish(Err(e@)),
        run_action_view(None) is None,
        run_action_view(Some(r)) == Some(r@),
        r is Open ==> r@ is Open,
        r matches RunAction::Write(b) ==> r@ == RunActionView::Write(b@),
        r is Delete ==> r@ is Delete,
        r is Close ==> r@ is Close,
        r matches RunAction::Finish(Ok(_)) ==> r@ == RunActionView::Finish(Ok(())),
        r matches RunAction::Finish(Err(e)) ==> r@ == RunActionView::Finish(Err(e@)),
        reply matches SettingReply::Code(c) ==> reply@ == SettingReplyView::Code(c),
        reply matches SettingReply::Written(Ok(_)) ==> reply@ == SettingReplyView::Written(Ok(())),
        reply matches SettingReply::Written(Err(e)) ==> reply@ == SettingReplyView::Written(
            Err(e@),
        ),
{
}

/// What was read of the registry is what is settled on.
pub proof fn registry_is_taken_as_read(v: String)
    ensures
        registry_view(Ok(Some(v))) == Ok::<_, Seq<char>>(Some(v@)),
        registry_view(Ok(None)) == Ok::<_, Seq<char>>(None::<Seq<char>>),
        registry_view(Err(v)) == Err::<Option<Seq<char>>, _>(v@),
        bytes_view(None) is None,
{
}

} // verus!
