//! What the window's program does when the user or the core acts.

use vstd::prelude::*;

use crate::addr::{IpAddr, Ipv4Addr};
use crate::protocol::{adapters_view, AdapterInfo, AdapterView, AppConfig, ConfigView, RuntimeState};
use crate::ui_state::{
    form_result, ui_actions_view, UiAction, UiActionView, UiAnswer, UiAnswerView, UiState, UiView,
    UserRequest, UserRequestView, UserTask, UserWork, WorkView,
};

verus! {

// ---------------------------------------------------------------------------
// Staying in step with the core
// ---------------------------------------------------------------------------

/// A look at the core asks for its state where there is a connection, and otherwise connects.
pub proof fn look_asks_or_connects(s: UiView)
    ensures
        s.connected ==> s.looking() == seq![UiActionView::AskStatus],
        !s.connected ==> s.looking() == seq![UiActionView::ShowService, UiActionView::Connect],
{
}

/// The state of the core is shown as it comes, after adapters were asked for where none are
/// known; nothing that is kept changes.
pub proof fn state_is_shown_as_it_comes(s: UiView, rs: RuntimeState)
    ensures
        ({
            let (next, actions) = s.told(UiAnswerView::Status(Some(rs)));
            &&& next == s
            &&& s.adapters.len() > 0 ==> actions == seq![
                UiActionView::ShowService,
                UiActionView::ShowStatus(rs),
            ]
            &&& s.adapters.len() == 0 ==> actions == seq![
                UiActionView::ShowService,
                UiActionView::AskAdapters,
                UiActionView::ShowStatus(rs),
            ]
        }),
{
    let a = s.told(UiAnswerView::Status(Some(rs))).1;
    if s.adapters.len() > 0 {
        assert(a =~= seq![UiActionView::ShowService, UiActionView::ShowStatus(rs)]);
    } else {
        assert(a =~= seq![
            UiActionView::ShowService,
            UiActionView::AskAdapters,
            UiActionView::ShowStatus(rs),
        ]);
    }
}

/// Without an answer the core is connected to anew; once that goes well everything is asked
/// for, and nothing where it does not.
pub proof fn missing_answer_leads_to_connecting(s: UiView)
    ensures
        s.told(UiAnswerView::Status(None)) == (
            s,
            seq![UiActionView::ShowService, UiActionView::Connect],
        ),
        s.told(UiAnswerView::Connected(true)) == (s, seq![UiActionView::AskAll]),
        s.told(UiAnswerView::Connected(false)) == (s, Seq::<UiActionView>::empty()),
{
}

/// All answers replace what is kept, and are shown.
pub proof fn all_answers_are_taken_over(
    s: UiView,
    rs: RuntimeState,
    config: ConfigView,
    adapters: Seq<AdapterView>,
)
    ensures
        ({
            let (next, actions) = s.told(
                UiAnswerView::All(Some(rs), Some(config), Some(adapters)),
            );
            &&& next.connected
            &&& next.config == config
            &&& next.adapters == adapters
            &&& adapters.len() > 0 ==> actions == seq![
                UiActionView::FillForm,
                UiActionView::ShowAdapters,
                UiActionView::ShowStatus(rs),
            ]
            &&& adapters.len() == 0 ==> actions == seq![
                UiActionView::FillForm,
                UiActionView::ShowAdapters,
                UiActionView::AskAdapters,
                UiActionView::ShowStatus(rs),
            ]
        }),
{
    let a = s.told(UiAnswerView::All(Some(rs), Some(config), Some(adapters))).1;
    if adapters.len() > 0 {
        assert(a =~= seq![
            UiActionView::FillForm,
            UiActionView::ShowAdapters,
            UiActionView::ShowStatus(rs),
        ]);
    } else {
        assert(a =~= seq![
            UiActionView::FillForm,
            UiActionView::ShowAdapters,
            UiActionView::AskAdapters,
            UiActionView::ShowStatus(rs),
        ]);
    }
}

/// Where an answer is missing, the connection is given up, what is kept stays, and the state
/// is shown if it has come.
pub proof fn missing_answer_gives_the_connection_up(
    s: UiView,
    status: Option<RuntimeState>,
    config: Option<ConfigView>,
    adapters: Option<Seq<AdapterView>>,
)
    requires
        status is None || config is None || adapters is None,
    ensures
        ({
            let (next, actions) = s.told(UiAnswerView::All(status, config, adapters));
            &&& !next.connected
            &&& next.config == s.config
            &&& next.adapters == s.adapters
            &&& status is None ==> actions == seq![UiActionView::Disconnect]
            &&& status matches Some(rs) ==> {
                &&& s.adapters.len() > 0 ==> actions == seq![
                    UiActionView::Disconnect,
                    UiActionView::ShowStatus(rs),
                ]
                &&& s.adapters.len() == 0 ==> actions == seq![
                    UiActionView::Disconnect,
                    UiActionView::AskAdapters,
                    UiActionView::ShowStatus(rs),
                ]
            }
        }),
{
    let a = s.told(UiAnswerView::All(status, config, adapters)).1;
    match status {
        None => {
            assert(a =~= seq![UiActionView::Disconnect]);
        },
        Some(rs) => {
            if s.adapters.len() > 0 {
                assert(a =~= seq![UiActionView::Disconnect, UiActionView::ShowStatus(rs)]);
            } else {
                assert(a =~= seq![
                    UiActionView::Disconnect,
                    UiActionView::AskAdapters,
                    UiActionView::ShowStatus(rs),
                ]);
            }
        },
    }
}

/// New adapters are taken over and shown, unless none have come.
pub proof fn new_adapters_are_taken_over(s: UiView, l: Seq<AdapterView>)
    ensures
        l.len() > 0 ==> {
            let (next, actions) = s.told(UiAnswerView::Adapters(Some(l)));
            &&& next.adapters == l
            &&& next.config == s.config
            &&& next.connected == s.connected
            &&& actions == seq![UiActionView::ShowAdapters]
        },
        l.len() == 0 ==> s.told(UiAnswerView::Adapters(Some(l))) == (
            s,
            Seq::<UiActionView>::empty(),
        ),
        s.told(UiAnswerView::Adapters(None)) == (s, Seq::<UiActionView>::empty()),
{
}

/// After the first connection whatever has come is kept and shown.
pub proof fn first_answers_are_kept(
    s: UiView,
    config: Option<ConfigView>,
    adapters: Option<Seq<AdapterView>>,
)
    ensures
        ({
            let (next, actions) = s.started(config, adapters);
            let list = if adapters is Some {
                UiActionView::ShowAdapters
            } else {
                UiActionView::ShowAdapter
            };
            &&& next.connected
            &&& config matches Some(c) ==> next.config == c
            &&& config is None ==> next.config == s.config
            &&& adapters matches Some(l) ==> next.adapters == l
            &&& adapters is None ==> next.adapters == s.adapters
            &&& config is Some ==> actions == seq![
                UiActionView::FillForm,
                list,
                UiActionView::ShowService,
            ]
            &&& config is None ==> actions == seq![list, UiActionView::ShowService]
        }),
{
    let a = s.started(config, adapters).1;
    let list = if adapters is Some {
        UiActionView::ShowAdapters
    } else {
        UiActionView::ShowAdapter
    };
    if config is Some {
        assert(a =~= seq![UiActionView::FillForm, list, UiActionView::ShowService]);
    } else {
        assert(a =~= seq![list, UiActionView::ShowService]);
    }
}

// ---------------------------------------------------------------------------
// What the user asks for
// ---------------------------------------------------------------------------

/// Whether a configuration is another but for the adapter.
pub open spec fn differs_in_adapter_only(a: ConfigView, b: ConfigView) -> bool {
    &&& a.bypass_ip == b.bypass_ip
    &&& a.switch_mode == b.switch_mode
    &&& a.dns_override == b.dns_override
    &&& a.subnet_mask == b.subnet_mask
    &&& a.static_ip == b.static_ip
    &&& a.health_check_interval_secs == b.health_check_interval_secs
    &&& a.failure_threshold == b.failure_threshold
    &&& a.auto_reenable_after_recovery == b.auto_reenable_after_recovery
    &&& a.notifications_enabled == b.notifications_enabled
}

/// An adapter that is selected is named in the configuration at once, and that is sent where
/// there is a connection. Once the core has it, the adapter is shown.
pub proof fn selected_adapter_is_named_and_sent(s: UiView, index: i32)
    requires
        0 <= index < s.adapters.len(),
    ensures
        ({
            let (next, work, actions) = s.requested(UserRequestView::SelectAdapter(index));
            let (kept, done, shown) = next.answered(work, Ok(()));
            &&& next.config.adapter_id == s.adapters[index as int].id
            &&& differs_in_adapter_only(next.config, s.config)
            &&& next.adapters == s.adapters
            &&& next.connected == s.connected
            &&& s.connected ==> {
                &&& actions == seq![UiActionView::Send(next.config)]
                &&& shown == seq![UiActionView::ShowAdapter]
                &&& kept == next
                &&& done.phase is Finished
            }
            &&& !s.connected ==> actions.len() == 0 && work.phase is Finished
        }),
{
}

/// A place that is not in the list selects nothing.
pub proof fn no_adapter_is_selected_beyond_the_list(s: UiView, index: i32)
    requires
        index < 0 || index >= s.adapters.len(),
    ensures
        ({
            let (next, work, actions) = s.requested(UserRequestView::SelectAdapter(index));
            next == s && actions.len() == 0 && work.phase is Finished
        }),
{
}

/// A form that is saved is sent for the selected adapter, and kept once the core has it.
pub proof fn saved_form_is_sent_and_kept(s: UiView, c: ConfigView)
    requires
        s.connected,
    ensures
        ({
            let (next, work, actions) = s.requested(UserRequestView::Save(Ok(c)));
            let (kept, done, shown) = next.answered(work, Ok(()));
            &&& next == s
            &&& actions.len() == 1
            &&& actions[0] matches UiActionView::Send(x) && x.adapter_id == s.config.adapter_id
                && differs_in_adapter_only(x, c) && kept.config == x
            &&& kept.adapters == s.adapters && kept.connected
            &&& shown == seq![UiActionView::Message(""@)]
            &&& done.phase is Finished
        }),
{
}

/// To enable the bypass the form is sent first, and it is kept once the bypass is enabled.
pub proof fn enabling_sends_the_form_first(s: UiView, c: ConfigView)
    requires
        s.connected,
    ensures
        ({
            let (s1, w1, a1) = s.requested(UserRequestView::Toggle(Ok(c), false));
            let (s2, w2, a2) = s1.answered(w1, Ok(()));
            let (s3, w3, a3) = s2.answered(w2, Ok(()));
            &&& s1 == s && s2 == s
            &&& a1.len() == 1
            &&& a1[0] matches UiActionView::Send(x) && x.adapter_id == s.config.adapter_id
                && differs_in_adapter_only(x, c) && s3.config == x
            &&& a2 == seq![UiActionView::Enable]
            &&& a3 == seq![UiActionView::AskAdapters]
            &&& s3.adapters == s.adapters && s3.connected
            &&& w3.phase is Finished
        }),
{
}

/// To disable the bypass nothing is sent, and the form is kept once it is disabled.
pub proof fn disabling_sends_nothing(s: UiView, c: ConfigView)
    requires
        s.connected,
    ensures
        ({
            let (s1, w1, a1) = s.requested(UserRequestView::Toggle(Ok(c), true));
            let (s2, w2, a2) = s1.answered(w1, Ok(()));
            &&& s1 == s
            &&& a1 == seq![UiActionView::Disable]
            &&& a2 == seq![UiActionView::AskAdapters]
            &&& s2.config.adapter_id == s.config.adapter_id
            &&& differs_in_adapter_only(s2.config, c)
            &&& s2.adapters == s.adapters && s2.connected
            &&& w2.phase is Finished
        }),
{
}

/// The initial configuration is sent for the selected adapter, and kept and shown once the
/// core has it.
pub proof fn initial_configuration_is_sent(s: UiView)
    requires
        s.connected,
    ensures
        ({
            let (s1, w1, a1) = s.requested(UserRequestView::RestoreDefault);
            let (s2, w2, a2) = s1.answered(w1, Ok(()));
            &&& s1 == s
            &&& a1.len() == 1
            &&& a1[0] matches UiActionView::Send(x) && {
                &&& x.adapter_id == s.config.adapter_id
                &&& x.bypass_ip == IpAddr::V4(Ipv4Addr { a: 0, b: 0, c: 0, d: 0 })
                &&& x.switch_mode is RouteOverlay
                &&& x.dns_override is None
                &&& x.subnet_mask is None
                &&& x.static_ip is None
                &&& x.health_check_interval_secs == 5
                &&& x.failure_threshold == 3
                &&& !x.auto_reenable_after_recovery
                &&& x.notifications_enabled
                &&& s2.config == x
            }
            &&& a2 == seq![
                UiActionView::FillForm,
                UiActionView::Message("已恢复默认配置"@),
            ]
            &&& w2.phase is Finished
        }),
{
}

/// What the user is told where something fails.
pub open spec fn told_of(task: UserTask, cause: Seq<char>) -> Seq<char> {
    match task {
        UserTask::SelectAdapter => "保存网卡选择失败: "@ + cause,
        UserTask::Toggle => cause,
        UserTask::Save => "保存失败: "@ + cause,
        UserTask::RestoreDefault => "恢复默认失败: "@ + cause,
    }
}

/// Without a connection nothing is sent or kept, and the user is told so.
pub proof fn nothing_is_sent_without_a_connection(s: UiView, c: ConfigView, on: bool)
    requires
        !s.connected,
    ensures
        ({
            let none = "未连接到核心服务"@;
            let a = s.requested(UserRequestView::Toggle(Ok(c), on));
            let b = s.requested(UserRequestView::Save(Ok(c)));
            let d = s.requested(UserRequestView::RestoreDefault);
            &&& a.0 == s && a.1.phase is Finished && a.2 == seq![UiActionView::Message(none)]
            &&& b.0 == s && b.1.phase is Finished && b.2 == seq![
                UiActionView::Message("保存失败: "@ + none),
            ]
            &&& d.0 == s && d.1.phase is Finished && d.2 == seq![
                UiActionView::Message("恢复默认失败: "@ + none),
            ]
        }),
{
}

/// A form that cannot be read is not sent, and the user is told what is wrong with it.
pub proof fn unreadable_form_is_not_sent(s: UiView, e: Seq<char>, on: bool)
    ensures
        ({
            let a = s.requested(UserRequestView::Toggle(Err(e), on));
            let b = s.requested(UserRequestView::Save(Err(e)));
            &&& a.0 == s && a.1.phase is Finished && a.2 == seq![UiActionView::Message(e)]
            &&& b.0 == s && b.1.phase is Finished && b.2 == seq![UiActionView::Message(e)]
        }),
{
}

/// Where the core refuses, nothing is kept, and the user is told why. Work that is over takes
/// no answers.
pub proof fn refusal_is_told_and_nothing_kept(
    s: UiView,
    work: WorkView,
    e: Seq<char>,
    reply: Result<(), Seq<char>>,
)
    ensures
        !(work.phase is Finished) ==> {
            let (next, done, actions) = s.answered(work, Err(e));
            &&& next == s
            &&& done.phase is Finished
            &&& actions == seq![UiActionView::Message(told_of(work.task, e))]
        },
        work.phase is Finished ==> s.answered(work, reply) == (
            s,
            work,
            Seq::<UiActionView>::empty(),
        ),
{
}

/// What the host is asked for, and what it answers, is what was meant.
pub proof fn host_shows_what_was_decided(
    s: UiState,
    a: UiAction,
    v: Seq<UiAction>,
    answer: UiAnswer,
    request: UserRequest,
    w: UserWork,
)
    ensures
        s@.connected == s.connected,
        s@.config == s.config@,
        s@.adapters == adapters_view(s.adapters@),
        w@.task == w.task,
        w@.config == w.config@,
        w@.phase == w.phase,
        ui_actions_view(v).len() == v.len(),
        forall|i: int| 0 <= i < v.len() ==> #[trigger] ui_actions_view(v)[i] == v[i]@,
        a is AskStatus ==> a@ is AskStatus,
        a is Connect ==> a@ is Connect,
        a is AskAll ==> a@ is AskAll,
        a is Disconnect ==> a@ is Disconnect,
        a is AskAdapters ==> a@ is AskAdapters,
        a is ShowService ==> a@ is ShowService,
        a is FillForm ==> a@ is FillForm,
        a is ShowAdapters ==> a@ is ShowAdapters,
        a is ShowAdapter ==> a@ is ShowAdapter,
        a matches UiAction::ShowStatus(rs) ==> a@ == UiActionView::ShowStatus(rs),
        a matches UiAction::Send(c) ==> a@ == UiActionView::Send(c@),
        a is Enable ==> a@ is Enable,
        a is Disable ==> a@ is Disable,
        a matches UiAction::Message(m) ==> a@ == UiActionView::Message(m@),
        answer matches UiAnswer::Status(x) ==> answer@ == UiAnswerView::Status(x),
        answer matches UiAnswer::Connected(ok) ==> answer@ == UiAnswerView::Connected(ok),
        answer matches UiAnswer::All(x, c, l) ==> (answer@ matches UiAnswerView::All(y, d, m) && {
            &&& y == x
            &&& c matches Some(k) ==> d == Some(k@)
            &&& c is None ==> d is None
            &&& l matches Some(k) ==> m == Some(adapters_view(k@))
            &&& l is None ==> m is None
        }),
        answer matches UiAnswer::Adapters(Some(l)) ==> answer@ == UiAnswerView::Adapters(
            Some(adapters_view(l@)),
        ),
        answer matches UiAnswer::Adapters(None) ==> answer@ == UiAnswerView::Adapters(None),
        request matches UserRequest::SelectAdapter(i) ==> request@
            == UserRequestView::SelectAdapter(i),
        request matches UserRequest::Toggle(r, on) ==> request@ == UserRequestView::Toggle(
            form_result(r),
            on,
        ),
        request matches UserRequest::Save(r) ==> request@ == UserRequestView::Save(
            form_result(r),
        ),
        request is RestoreDefault ==> request@ is RestoreDefault,
{
}

/// A list of adapters holds the contents of each, in order; a form holds what it reads as.
pub proof fn contents_are_held_one_by_one(l: Seq<AdapterInfo>, i: int, c: AppConfig, e: String)
    requires
        0 <= i < l.len(),
    ensures
        adapters_view(l).len() == l.len(),
        adapters_view(l)[i] == l[i]@,
        form_result(Ok(c)) == Ok::<_, Seq<char>>(c@),
        form_result(Err(e)) == Err::<ConfigView, _>(e@),
{
}

} // verus!
