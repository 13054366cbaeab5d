//! What holds of the registry value and the settings file while the setting is settled.

use vstd::prelude::*;

use crate::autostart::{
    change_result, choice, chosen_in, lemma_command_text, run_data, startup, unit_bytes,
    value_bytes, without_zeros, RunActionView, RunPhase, SettingActionView, SettingPhaseView,
    SettingReplyView, SettingView, ERROR_FILE_NOT_FOUND, SETTING,
};
use crate::encoding::{utf16_of, utf16_text};
use crate::json::bool_object;

verus! {

/// What is on the machine: the registry value as it is read, and the text of the settings
/// file.
pub struct Machine {
    pub run: Option<Seq<char>>,
    pub file: Option<Seq<char>>,
}

/// The units of bytes, the lower byte of each first.
pub open spec fn byte_units(b: Seq<u8>) -> Seq<u16> {
    Seq::new(b.len() / 2, |i: int| (b[2 * i] + 0x100 * b[2 * i + 1]) as u16)
}

/// The text that is read of a registry value with the bytes.
pub open spec fn value_text(b: Seq<u8>) -> Seq<char> {
    without_zeros(utf16_text(byte_units(b)))
}

impl Machine {
    /// The machine after an action and its answer. What a failed write leaves of the file
    /// is not modelled.
    pub open spec fn after(self, asked: SettingActionView, reply: SettingReplyView) -> Machine {
        match (asked, reply) {
            (
                SettingActionView::Run(RunActionView::Write(b)),
                SettingReplyView::Code(0),
            ) => Machine { run: Some(value_text(b)), ..self },
            (SettingActionView::Run(RunActionView::Delete), SettingReplyView::Code(c)) => if c == 0
                || c == ERROR_FILE_NOT_FOUND {
                Machine { run: None, ..self }
            } else {
                self
            },
            (
                SettingActionView::WriteFile(_, text),
                SettingReplyView::Written(Ok(_)),
            ) => Machine { file: Some(text), ..self },
            _ => self,
        }
    }
}

/// Settling on a machine: how far it has come, what was asked last, and what was asked
/// and answered before.
pub struct SettingRun {
    pub change: SettingView,
    pub asked: SettingActionView,
    pub machine: Machine,
    pub log: Seq<(SettingActionView, SettingReplyView)>,
}

/// Settling on a machine, after the answers.
pub open spec fn settle(
    begun: (SettingView, SettingActionView),
    machine: Machine,
    replies: Seq<SettingReplyView>,
) -> SettingRun
    decreases replies.len(),
{
    if replies.len() == 0 {
        SettingRun { change: begun.0, asked: begun.1, machine, log: seq![] }
    } else {
        let r = settle(begun, machine, replies.drop_last());
        let reply = replies.last();
        match r.change.stepped(reply) {
            (next, Some(action)) => SettingRun {
                change: next,
                asked: action,
                machine: r.machine.after(r.asked, reply),
                log: r.log.push((r.asked, reply)),
            },
            (_, None) => r,
        }
    }
}

/// Whether an action on the registry value failed.
pub open spec fn is_failure(entry: (SettingActionView, SettingReplyView)) -> bool {
    match entry {
        (SettingActionView::Run(RunActionView::Open), SettingReplyView::Code(c)) => c != 0,
        (SettingActionView::Run(RunActionView::Write(_)), SettingReplyView::Code(c)) => c != 0,
        (SettingActionView::Run(RunActionView::Delete), SettingReplyView::Code(c)) => c != 0 && c
            != ERROR_FILE_NOT_FOUND,
        _ => false,
    }
}

/// Whether the registry value could not be changed.
pub open spec fn run_value_failed(log: Seq<(SettingActionView, SettingReplyView)>) -> bool {
    exists|i: int| 0 <= i < log.len() && #[trigger] is_failure(log[i])
}

/// Whether writing the settings file was asked for.
pub open spec fn asked_to_write(r: SettingRun) -> bool {
    ||| r.asked is WriteFile
    ||| exists|i: int| 0 <= i < r.log.len() && (#[trigger] r.log[i]).0 is WriteFile
}

/// The registry value that a setting calls for.
pub open spec fn called_for(enabled: bool, exe: Option<Seq<char>>) -> Option<Seq<char>> {
    if enabled {
        Some(run_data(exe))
    } else {
        None
    }
}

/// What holds while the setting is settled.
spec fn setting_inv(r: SettingRun, file: Option<Seq<char>>, exe: Option<Seq<char>>) -> bool {
    let enabled = r.change.enabled;
    let agrees = r.machine.run == called_for(enabled, exe);
    match r.change.phase {
        SettingPhaseView::Changing(bytes, phase) => {
            &&& bytes == if enabled {
                Some(value_bytes(run_data(exe)))
            } else {
                None
            }
            &&& r.machine.file == file
            &&& !asked_to_write(r)
            &&& match phase {
                RunPhase::Opening => {
                    &&& r.asked == SettingActionView::Run(RunActionView::Open)
                    &&& !run_value_failed(r.log)
                },
                RunPhase::Changing => {
                    &&& r.asked == SettingActionView::Run(
                        match bytes {
                            Some(b) => RunActionView::Write(b),
                            None => RunActionView::Delete,
                        },
                    )
                    &&& !run_value_failed(r.log)
                },
                RunPhase::Closing(c) => {
                    &&& r.asked == SettingActionView::Run(RunActionView::Close)
                    &&& run_value_failed(r.log) <==> change_result(enabled, c) is Err
                    &&& !run_value_failed(r.log) ==> agrees
                },
                RunPhase::Finished => false,
            }
        },
        SettingPhaseView::Writing => {
            &&& r.asked matches SettingActionView::WriteFile(_, text)
            &&& text == bool_object(SETTING@, enabled)
            &&& r.machine.file == file
            &&& !run_value_failed(r.log)
            &&& agrees
        },
        SettingPhaseView::Finished => match r.asked {
            SettingActionView::Finish(Ok(b)) => {
                &&& b == enabled
                &&& !run_value_failed(r.log)
                &&& agrees
                &&& r.machine.file == Some(bool_object(SETTING@, enabled))
            },
            SettingActionView::Finish(Err(_)) => if asked_to_write(r) {
                &&& !run_value_failed(r.log)
                &&& r.log.len() > 0
                &&& r.log.last().0 is WriteFile
                &&& r.log.last().1 matches SettingReplyView::Written(Err(_))
            } else {
                r.machine.file == file
            },
            _ => false,
        },
    }
}

proof fn lemma_log_grows(r: SettingRun, reply: SettingReplyView)
    ensures
        run_value_failed(r.log.push((r.asked, reply))) <==> run_value_failed(r.log) || is_failure(
            (r.asked, reply),
        ),
        (exists|i: int|
            0 <= i < r.log.push((r.asked, reply)).len() && (#[trigger] r.log.push(
                (r.asked, reply),
            )[i]).0 is WriteFile) <==> asked_to_write(r),
{
    let log = r.log.push((r.asked, reply));
    if run_value_failed(r.log) {
        let i = choose|i: int| 0 <= i < r.log.len() && #[trigger] is_failure(r.log[i]);
        assert(is_failure(log[i]));
    }
    if is_failure((r.asked, reply)) {
        assert(is_failure(log[log.len() - 1]));
    }
    if run_value_failed(log) {
        let i = choose|i: int| 0 <= i < log.len() && #[trigger] is_failure(log[i]);
        if i < r.log.len() {
            assert(is_failure(r.log[i]));
        }
    }
    if r.asked is WriteFile {
        assert(log[log.len() - 1].0 is WriteFile);
    } else if asked_to_write(r) {
        let i = choose|i: int| 0 <= i < r.log.len() && (#[trigger] r.log[i]).0 is WriteFile;
        assert(log[i].0 is WriteFile);
    }
    if exists|i: int| 0 <= i < log.len() && (#[trigger] log[i]).0 is WriteFile {
        let i = choose|i: int| 0 <= i < log.len() && (#[trigger] log[i]).0 is WriteFile;
        if i < r.log.len() {
            assert(r.log[i].0 is WriteFile);
        }
    }
}

proof fn lemma_command_is_held(exe: Option<Seq<char>>)
    ensures
        value_text(value_bytes(run_data(exe))) == run_data(exe),
{
    let u = utf16_of(run_data(exe)).push(0);
    let b = unit_bytes(u);
    assert forall|i: int| 0 <= i < u.len() implies byte_units(b)[i] == #[trigger] u[i] by {
        assert(b[2 * i] == (u[i] % 0x100) as u8);
        assert(b[2 * i + 1] == (u[i] / 0x100) as u8);
    }
    assert(byte_units(b) =~= u);
    lemma_command_text(exe);
}

proof fn lemma_setting_inv(
    begun: (SettingView, SettingActionView),
    machine: Machine,
    exe: Option<Seq<char>>,
    replies: Seq<SettingReplyView>,
)
    requires
        setting_inv(settle(begun, machine, seq![]), machine.file, exe),
    ensures
        setting_inv(settle(begun, machine, replies), machine.file, exe),
        settle(begun, machine, replies).change.enabled == begun.0.enabled,
    decreases replies.len(),
{
    if replies.len() == 0 {
        assert(replies =~= seq![]);
    } else {
        lemma_setting_inv(begun, machine, exe, replies.drop_last());
        lemma_log_grows(settle(begun, machine, replies.drop_last()), replies.last());
        lemma_command_is_held(exe);
    }
}

/// What is promised of settling a setting on a machine: success means that the registry
/// and the settings file agree with it, and where the registry value cannot be changed,
/// the settings file is left alone and the end is an error.
pub open spec fn settles(
    r: SettingRun,
    enabled: bool,
    file: Option<Seq<char>>,
    exe: Option<Seq<char>>,
) -> bool {
    &&& r.asked matches SettingActionView::Finish(Ok(b)) ==> {
        &&& b == enabled
        &&& r.machine.run == called_for(enabled, exe)
        &&& r.machine.file == Some(bool_object(SETTING@, enabled))
        &&& !run_value_failed(r.log)
    }
    &&& run_value_failed(r.log) ==> {
        &&& !asked_to_write(r)
        &&& r.machine.file == file
        &&& r.asked is Finish ==> r.asked matches SettingActionView::Finish(Err(_))
    }
}

/// Where the registry value cannot be read at startup, the end is an error, and nothing
/// is changed.
pub proof fn unread_run_value_changes_nothing(
    machine: Machine,
    cause: Seq<char>,
    appdata: Option<Seq<char>>,
    exe: Option<Seq<char>>,
    replies: Seq<SettingReplyView>,
)
    ensures
        ({
            let r = settle(startup(machine.file, Err(cause), appdata, exe), machine, replies);
            &&& r.asked == SettingActionView::Finish(Err(cause))
            &&& r.machine == machine
            &&& r.log.len() == 0
        }),
    decreases replies.len(),
{
    let begun = startup(machine.file, Err(cause), appdata, exe);
    if replies.len() > 0 {
        unread_run_value_changes_nothing(machine, cause, appdata, exe, replies.drop_last());
        lemma_finished_stays(begun, machine, replies.drop_last());
    }
}

proof fn lemma_finished_stays(
    begun: (SettingView, SettingActionView),
    machine: Machine,
    replies: Seq<SettingReplyView>,
)
    requires
        begun.0.phase is Finished,
    ensures
        settle(begun, machine, replies).change == begun.0,
    decreases replies.len(),
{
    if replies.len() > 0 {
        lemma_finished_stays(begun, machine, replies.drop_last());
    }
}

/// Startup settles the setting that the settings file gives, or else whether there is a
/// registry value.
pub proof fn startup_settles(
    machine: Machine,
    appdata: Option<Seq<char>>,
    exe: Option<Seq<char>>,
    replies: Seq<SettingReplyView>,
)
    ensures
        settles(
            settle(startup(machine.file, Ok(machine.run), appdata, exe), machine, replies),
            match chosen_in(machine.file) {
                Some(b) => b,
                None => machine.run is Some,
            },
            machine.file,
            exe,
        ),
{
    let begun = startup(machine.file, Ok(machine.run), appdata, exe);
    lemma_setting_inv(begun, machine, exe, replies);
}

/// The user's choice is settled.
pub proof fn choice_settles(
    machine: Machine,
    enable: bool,
    appdata: Option<Seq<char>>,
    exe: Option<Seq<char>>,
    replies: Seq<SettingReplyView>,
)
    ensures
        settles(
            settle(choice(enable, appdata, exe), machine, replies),
            enable,
            machine.file,
            exe,
        ),
{
    lemma_setting_inv(choice(enable, appdata, exe), machine, exe, replies);
}

proof fn lemma_four_answers(
    begun: (SettingView, SettingActionView),
    machine: Machine,
    closed: u32,
)
    ensures
        ({
            let replies = seq![
                SettingReplyView::Code(0),
                SettingReplyView::Code(0),
                SettingReplyView::Code(closed),
                SettingReplyView::Written(Ok(())),
            ];
            begun.0.phase matches SettingPhaseView::Changing(_, RunPhase::Opening)
                && begun.0.appdata is Some ==> settle(begun, machine, replies).asked
                == SettingActionView::Finish(Ok(begun.0.enabled))
        }),
{
    let ok = SettingReplyView::Code(0);
    let close = SettingReplyView::Code(closed);
    let written = SettingReplyView::Written(Ok(()));
    reveal_with_fuel(settle, 5);
    assert(seq![ok, ok, close, written].drop_last() =~= seq![ok, ok, close]);
    assert(seq![ok, ok, close].drop_last() =~= seq![ok, ok]);
    assert(seq![ok, ok].drop_last() =~= seq![ok]);
    assert(seq![ok].drop_last() =~= seq![]);
}

/// The user's choice succeeds where opening the key, changing the value and writing the
/// file do, whatever closing the key came to.
pub proof fn choice_succeeds(
    machine: Machine,
    enable: bool,
    dir: Seq<char>,
    exe: Option<Seq<char>>,
    closed: u32,
)
    ensures
        settle(
            choice(enable, Some(dir), exe),
            machine,
            seq![
                SettingReplyView::Code(0),
                SettingReplyView::Code(0),
                SettingReplyView::Code(closed),
                SettingReplyView::Written(Ok(())),
            ],
        ).asked == SettingActionView::Finish(Ok(enable)),
{
    lemma_four_answers(choice(enable, Some(dir), exe), machine, closed);
}

/// Once a setting is settled and the settings file reads back, another startup comes to
/// the same setting: it leaves the registry value alone and writes the same file.
pub proof fn settled_setting_lasts(
    machine: Machine,
    enabled: bool,
    dir: Seq<char>,
    exe: Option<Seq<char>>,
)
    requires
        machine.run == called_for(enabled, exe),
        machine.file == Some(bool_object(SETTING@, enabled)),
    ensures
        chosen_in(machine.file) == Some(enabled) ==> {
            let begun = startup(machine.file, Ok(machine.run), Some(dir), exe);
            let end = settle(begun, machine, seq![SettingReplyView::Written(Ok(()))]);
            &&& begun.1 is WriteFile
            &&& end.asked == SettingActionView::Finish(Ok(enabled))
            &&& end.machine == machine
        },
{
    reveal_with_fuel(settle, 2);
    assert(seq![SettingReplyView::Written(Ok(()))].drop_last() =~= seq![]);
}

} // verus!
