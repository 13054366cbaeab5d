//! What reconfiguring an adapter sets, what restoring it gives back, and in which order.

use vstd::prelude::*;

use crate::adapter_reconfig::{
    enable_commands, reconfig_handle, restore_commands, snapshot_of, v4_addresses,
};
use crate::addr::{IpAddr, Ipv4Addr};
use crate::error::ErrorView;
use crate::ip_text::v4_text;
use crate::netsh::{commands_view, netsh_result, output_text, CommandView, NetshCommand};
use crate::protocol::{adapters_view, AdapterView, HandleView, SnapshotView, SwitchMode, TargetView};
use crate::restore::{
    restore_action_view, restored, RestoreAction, RestoreActionView, RestorePhase, RestorePhaseView,
    RestoreReply, RestoreReplyView,
};
use crate::switch_laws::{is_first, keeps, lemma_first_is_found, lemma_none_is_found};

verus! {

/// The IPv4 addresses of a list are picked one by one and stay in order: those of two lists
/// put together are those of the one and then those of the other.
pub proof fn v4_addresses_are_picked_in_order(a: Seq<IpAddr>, b: Seq<IpAddr>)
    ensures
        v4_addresses(a + b) == v4_addresses(a) + v4_addresses(b),
    decreases b.len(),
{
    if b.len() == 0 {
        assert(a + b =~= a);
        assert(v4_addresses(a) + v4_addresses(b) =~= v4_addresses(a));
    } else {
        v4_addresses_are_picked_in_order(a, b.drop_last());
        assert((a + b).drop_last() =~= a + b.drop_last());
        assert((a + b).last() == b.last());
        assert(v4_addresses(a + b) =~= v4_addresses(a) + v4_addresses(b));
    }
}

/// Of a single address the IPv4 address is picked, and nothing of another one.
pub proof fn v4_address_is_picked(ip: IpAddr)
    ensures
        v4_addresses(seq![ip]) == match ip {
            IpAddr::V4(v) => seq![v],
            IpAddr::V6(_) => seq![],
        },
{
    assert(seq![ip].drop_last() =~= Seq::<IpAddr>::empty());
    reveal_with_fuel(v4_addresses, 2);
    assert(v4_addresses(seq![ip]) =~= match ip {
        IpAddr::V4(v) => seq![v],
        IpAddr::V6(_) => seq![],
    });
}

/// Whether the command gives the adapter a fixed address, a mask and a router.
pub open spec fn sets_address(
    c: CommandView,
    name: Seq<char>,
    ip: Ipv4Addr,
    mask: Ipv4Addr,
    router: Ipv4Addr,
) -> bool {
    &&& !c.idempotent
    &&& c.args.len() == 9
    &&& c.args[0] == "interface"@ && c.args[1] == "ip"@ && c.args[2] == "set"@
    &&& c.args[3] == "address"@
    &&& c.args[4] == name
    &&& c.args[5] == "static"@
    &&& c.args[6] == v4_text(ip)
    &&& c.args[7] == v4_text(mask)
    &&& c.args[8] == v4_text(router)
}

/// Whether the commands from the place on set the name servers, in order, and no others:
/// the first one replaces what there was, and the further ones are added.
pub open spec fn sets_servers(
    c: Seq<CommandView>,
    from: int,
    name: Seq<char>,
    servers: Seq<Ipv4Addr>,
) -> bool {
    &&& c.len() == from + servers.len()
    &&& forall|k: int|
        0 <= k < servers.len() ==> {
            let args = (#[trigger] c[from + k]).args;
            &&& !c[from + k].idempotent
            &&& args.len() == 7
            &&& args[0] == "interface"@ && args[1] == "ip"@ && args[3] == "dns"@
            &&& args[4] == name
            &&& k == 0 ==> args[2] == "set"@ && args[5] == "static"@ && args[6] == v4_text(
                servers[k],
            )
            &&& k > 0 ==> args[2] == "add"@ && args[5] == v4_text(servers[k]) && args[6]
                == "index=2"@
        }
}

/// Whether the command has the adapter get its address, or its name servers, by DHCP. That
/// it does so already is no failure.
pub open spec fn turns_dhcp_on(c: CommandView, name: Seq<char>, what: Seq<char>) -> bool {
    &&& c.idempotent
    &&& c.args.len() == 6
    &&& c.args[0] == "interface"@ && c.args[1] == "ip"@ && c.args[2] == "set"@
    &&& c.args[3] == what
    &&& c.args[4] == name
    &&& c.args[5] == "dhcp"@
}

/// The address that an adapter is to have is the configured one, or the first that it has.
pub open spec fn is_own_address(t: TargetView, a: AdapterView, ip: Ipv4Addr) -> bool {
    match t.static_ip {
        Some(s) => ip == s,
        None => a.ipv4.len() > 0 && a.ipv4[0] == IpAddr::V4(ip),
    }
}

/// Enabling gives the adapter its address, the configured mask or 255.255.255.0, and the
/// router as its gateway. The name servers are the configured IPv4 ones, whatever else is
/// configured, and the router alone where none are configured.
pub proof fn enabling_sets_address_and_servers(
    t: TargetView,
    list: Seq<AdapterView>,
    i: int,
    router: Ipv4Addr,
    ip: Ipv4Addr,
)
    requires
        is_first(list, i, t.adapter_id),
        t.bypass_ip == IpAddr::V4(router),
        is_own_address(t, list[i], ip),
    ensures
        enable_commands(t, list) matches Ok(c) && {
            let mask = match t.subnet_mask {
                Some(m) => m,
                None => Ipv4Addr { a: 255, b: 255, c: 255, d: 0 },
            };
            &&& c.len() > 0
            &&& sets_address(c[0], list[i].name, ip, mask, router)
            &&& match t.dns {
                Some(d) if d.len() > 0 => sets_servers(c, 1, list[i].name, v4_addresses(d)),
                _ => sets_servers(c, 1, list[i].name, seq![router]),
            }
        },
{
    lemma_first_is_found(list, i, t.adapter_id);
}

/// Two targets that differ only in their name servers give the same first command: the
/// servers have no say in the address, and the address none in the servers.
pub proof fn servers_and_address_are_set_apart(
    t: TargetView,
    u: TargetView,
    list: Seq<AdapterView>,
)
    requires
        enable_commands(t, list) is Ok,
        enable_commands(u, list) is Ok,
        t.adapter_id == u.adapter_id,
    ensures
        t.bypass_ip == u.bypass_ip && t.subnet_mask == u.subnet_mask && t.static_ip == u.static_ip
            ==> enable_commands(t, list)->Ok_0[0] == enable_commands(u, list)->Ok_0[0],
        t.dns == u.dns && t.bypass_ip == u.bypass_ip ==> enable_commands(t, list)->Ok_0.skip(1)
            == enable_commands(u, list)->Ok_0.skip(1),
{
    let x = enable_commands(t, list)->Ok_0;
    let y = enable_commands(u, list)->Ok_0;
    if t.dns == u.dns && t.bypass_ip == u.bypass_ip {
        assert(x.skip(1) =~= y.skip(1));
    }
}

/// Enabling fails, and says why, where the router is no IPv4 address, where the adapter is
/// missing, and where there is no IPv4 address to give it.
pub proof fn enabling_is_refused_with_a_reason(t: TargetView, list: Seq<AdapterView>, i: int)
    ensures
        t.bypass_ip is V6 ==> enable_commands(t, list) == Err::<Seq<CommandView>, _>(
            ErrorView::Network("仅支持 IPv4 旁路由地址"@),
        ),
        t.bypass_ip is V4 && (forall|k: int|
            0 <= k < list.len() ==> (#[trigger] list[k]).id != t.adapter_id) ==> enable_commands(
            t,
            list,
        ) == Err::<Seq<CommandView>, _>(
            ErrorView::Network("网卡 "@ + t.adapter_id + " 不存在"@),
        ),
        t.bypass_ip is V4 && is_first(list, i, t.adapter_id) && t.static_ip is None
            && list[i].ipv4.len() == 0 ==> enable_commands(t, list) == Err::<Seq<CommandView>, _>(
            ErrorView::Network("网卡无 IPv4 地址，无法直改"@),
        ),
        t.bypass_ip is V4 && is_first(list, i, t.adapter_id) && t.static_ip is None
            && list[i].ipv4.len() > 0 && list[i].ipv4[0] is V6 ==> enable_commands(t, list)
            == Err::<Seq<CommandView>, _>(ErrorView::Network("仅支持 IPv4"@)),
{
    if is_first(list, i, t.adapter_id) {
        lemma_first_is_found(list, i, t.adapter_id);
    }
    if forall|k: int| 0 <= k < list.len() ==> (#[trigger] list[k]).id != t.adapter_id {
        lemma_none_is_found(list, t.adapter_id);
    }
}

/// The handle of a reconfigured adapter names the adapter and no routes.
pub proof fn reconfig_handle_names_the_adapter(id: Seq<char>)
    ensures
        reconfig_handle(id) == (HandleView {
            mode: SwitchMode::AdapterReconfig,
            if_index: None,
            if_luid: None,
            destination_prefix: None,
            next_hop: None,
            adapter_id: Some(id),
            extra_routes: Seq::empty(),
        }),
{
    assert(reconfig_handle(id).extra_routes =~= Seq::empty());
}

/// A backup holds what the adapter has.
pub proof fn backup_holds_what_the_adapter_has(a: AdapterView, dhcp: Option<bool>)
    ensures
        keeps(snapshot_of(a, dhcp), a, dhcp),
{
}

// ---------------------------------------------------------------------------
// Restoring
// ---------------------------------------------------------------------------

/// An adapter that was on DHCP gets its address and its name servers by DHCP again,
/// whatever else the backup holds.
pub proof fn restoring_turns_dhcp_on(s: SnapshotView, list: Seq<AdapterView>, i: int)
    requires
        is_first(list, i, s.adapter_id),
        s.is_dhcp_enabled,
    ensures
        restore_commands(s, list) matches Ok(c) && {
            &&& c.len() == 2
            &&& turns_dhcp_on(c[0], list[i].name, "address"@)
            &&& turns_dhcp_on(c[1], list[i].name, "dns"@)
        },
{
    lemma_first_is_found(list, i, s.adapter_id);
}

/// An adapter with a fixed address gets that address back, with the first of its gateways
/// and its IPv4 name servers in order; where it had none, they come by DHCP.
pub proof fn restoring_gives_the_address_back(
    s: SnapshotView,
    list: Seq<AdapterView>,
    i: int,
    ip: Ipv4Addr,
    gateway: Ipv4Addr,
)
    requires
        is_first(list, i, s.adapter_id),
        !s.is_dhcp_enabled,
        s.static_ipv4.len() > 0 && s.static_ipv4[0] == IpAddr::V4(ip),
        s.gateway.len() > 0 && s.gateway[0] == IpAddr::V4(gateway),
    ensures
        restore_commands(s, list) matches Ok(c) && {
            &&& c.len() > 0
            &&& sets_address(
                c[0],
                list[i].name,
                ip,
                (Ipv4Addr { a: 255, b: 255, c: 255, d: 0 }),
                gateway,
            )
            &&& s.dns.len() > 0 ==> sets_servers(c, 1, list[i].name, v4_addresses(s.dns))
            &&& s.dns.len() == 0 ==> c.len() == 2 && turns_dhcp_on(c[1], list[i].name, "dns"@)
        },
{
    lemma_first_is_found(list, i, s.adapter_id);
}

/// Restoring is impossible, and that is said, where the adapter is gone, and where a fixed
/// address or its gateway is not in the backup as an IPv4 address.
pub proof fn restoring_is_refused_with_a_reason(s: SnapshotView, list: Seq<AdapterView>, i: int)
    ensures
        (forall|k: int| 0 <= k < list.len() ==> (#[trigger] list[k]).id != s.adapter_id)
            ==> restore_commands(s, list) == Err::<Seq<CommandView>, _>(
            ErrorView::Network("网卡 "@ + s.adapter_id + " 已不存在"@),
        ),
        is_first(list, i, s.adapter_id) && !s.is_dhcp_enabled && (s.static_ipv4.len() == 0
            || s.static_ipv4[0] is V6) ==> restore_commands(s, list) == Err::<
            Seq<CommandView>,
            _,
        >(ErrorView::Network("快照缺少 IPv4"@)),
        is_first(list, i, s.adapter_id) && !s.is_dhcp_enabled && s.static_ipv4.len() > 0
            && s.static_ipv4[0] is V4 && (s.gateway.len() == 0 || s.gateway[0] is V6)
            ==> restore_commands(s, list) == Err::<Seq<CommandView>, _>(
            ErrorView::Network("快照缺少网关"@),
        ),
{
    if is_first(list, i, s.adapter_id) {
        lemma_first_is_found(list, i, s.adapter_id);
    }
    if forall|k: int| 0 <= k < list.len() ==> (#[trigger] list[k]).id != s.adapter_id {
        lemma_none_is_found(list, s.adapter_id);
    }
}

/// Restoring from a backup, whatever it holds: the commands that it calls for are run, then
/// the backup goes, and only once that is answered is restoring over.
pub proof fn restoring_runs_then_forgets_the_backup(
    s: SnapshotView,
    list: Seq<AdapterView>,
    commands: Seq<CommandView>,
    ran: Result<(), ErrorView>,
    cleared: Result<(), ErrorView>,
)
    requires
        restore_commands(s, list) == Ok::<_, ErrorView>(commands),
    ensures
        ({
            let (p1, a1) = restored(
                RestorePhaseView::Loading,
                RestoreReplyView::Snapshot(Ok(Some(s))),
            );
            let (p2, a2) = restored(p1, RestoreReplyView::Adapters(Ok(list)));
            let (p3, a3) = restored(p2, RestoreReplyView::Done(ran));
            let (p4, a4) = restored(p3, RestoreReplyView::Done(cleared));
            &&& a1 == Some(RestoreActionView::ListAdapters)
            &&& a2 == Some(RestoreActionView::Run(commands))
            &&& a3 == Some(RestoreActionView::ClearSnapshot)
            &&& a4 == Some(RestoreActionView::Finish(cleared))
            &&& p4 is Finished
        }),
{
}

/// Where restoring proves impossible, the backup goes at once, and only once that is
/// answered is restoring over.
pub proof fn impossible_restoring_forgets_the_backup(
    s: SnapshotView,
    list: Seq<AdapterView>,
    cause: Seq<char>,
    cleared: Result<(), ErrorView>,
)
    requires
        restore_commands(s, list) is Err,
    ensures
        ({
            let p1 = restored(
                RestorePhaseView::Loading,
                RestoreReplyView::Snapshot(Ok(Some(s))),
            ).0;
            let (p2, a2) = restored(p1, RestoreReplyView::Adapters(Ok(list)));
            let (p3, a3) = restored(p1, RestoreReplyView::Adapters(Err(cause)));
            &&& a2 == Some(RestoreActionView::ClearSnapshot)
            &&& a3 == Some(RestoreActionView::ClearSnapshot)
            &&& restored(p2, RestoreReplyView::Done(cleared)) == (
                RestorePhaseView::Finished,
                Some(RestoreActionView::Finish(cleared)),
            )
            &&& restored(p3, RestoreReplyView::Done(cleared)) == (
                RestorePhaseView::Finished,
                Some(RestoreActionView::Finish(cleared)),
            )
        }),
{
}

/// Without a backup there is nothing to restore; one that cannot be read is reported.
pub proof fn restoring_needs_a_backup(e: ErrorView)
    ensures
        restored(RestorePhaseView::Loading, RestoreReplyView::Snapshot(Ok(None))) == (
            RestorePhaseView::Finished,
            Some(RestoreActionView::Finish(Ok(()))),
        ),
        restored(RestorePhaseView::Loading, RestoreReplyView::Snapshot(Err(e))) == (
            RestorePhaseView::Finished,
            Some(RestoreActionView::Finish(Err(e))),
        ),
{
}

/// Restoring, after the answers: the phase, and all actions in order.
pub open spec fn restore_run(replies: Seq<RestoreReplyView>) -> (
    RestorePhaseView,
    Seq<RestoreActionView>,
)
    decreases replies.len(),
{
    if replies.len() == 0 {
        (RestorePhaseView::Loading, seq![RestoreActionView::LoadSnapshot])
    } else {
        let (phase, actions) = restore_run(replies.drop_last());
        match restored(phase, replies.last()) {
            (next, Some(a)) => (next, actions.push(a)),
            (next, None) => (next, actions),
        }
    }
}

/// Whether an action is among those that were asked for.
pub open spec fn was_asked(actions: Seq<RestoreActionView>, a: RestoreActionView) -> bool {
    actions.contains(a)
}

spec fn restore_inv(phase: RestorePhaseView, actions: Seq<RestoreActionView>) -> bool {
    let listed = was_asked(actions, RestoreActionView::ListAdapters);
    let cleared = was_asked(actions, RestoreActionView::ClearSnapshot);
    match phase {
        RestorePhaseView::Loading => !listed && !cleared,
        RestorePhaseView::Listing(_) => listed && !cleared,
        RestorePhaseView::Running => listed && !cleared,
        RestorePhaseView::Clearing => listed && cleared,
        RestorePhaseView::Finished => {
            &&& listed ==> cleared
            &&& actions.last() is Finish
        },
    }
}

/// Whatever the answers are: once a backup was found, restoring is over only after its
/// removal was asked for.
pub proof fn found_backup_is_dealt_with(replies: Seq<RestoreReplyView>)
    ensures
        ({
            let (phase, actions) = restore_run(replies);
            phase is Finished && was_asked(actions, RestoreActionView::ListAdapters) ==> was_asked(
                actions,
                RestoreActionView::ClearSnapshot,
            )
        }),
{
    lemma_restore_inv(replies);
}

proof fn lemma_restore_inv(replies: Seq<RestoreReplyView>)
    ensures
        restore_inv(restore_run(replies).0, restore_run(replies).1),
        restore_run(replies).1.len() > 0,
    decreases replies.len(),
{
    if replies.len() == 0 {
        let actions = seq![RestoreActionView::LoadSnapshot];
        assert(actions[0] == RestoreActionView::LoadSnapshot);
    } else {
        lemma_restore_inv(replies.drop_last());
        let (phase, actions) = restore_run(replies.drop_last());
        match restored(phase, replies.last()) {
            (next, Some(a)) => {
                let more = actions.push(a);
                assert(more[actions.len() as int] == a);
                assert forall|x: RestoreActionView| was_asked(actions, x) implies #[trigger] was_asked(
                    more,
                    x,
                ) by {
                    let k = choose|k: int| 0 <= k < actions.len() && actions[k] == x;
                    assert(more[k] == x);
                }
                assert forall|x: RestoreActionView| #[trigger] was_asked(more, x) && x
                    != a implies was_asked(actions, x) by {
                    let k = choose|k: int| 0 <= k < more.len() && more[k] == x;
                    assert(actions[k] == x);
                }
            },
            (next, None) => {},
        }
    }
}

/// An answer that was not asked for changes nothing while restoring.
pub proof fn unasked_answers_do_not_restore(phase: RestorePhaseView, reply: RestoreReplyView)
    requires
        match reply {
            RestoreReplyView::Snapshot(_) => !(phase is Loading),
            RestoreReplyView::Adapters(_) => !(phase is Listing),
            RestoreReplyView::Done(_) => !(phase is Running || phase is Clearing),
        },
    ensures
        restored(phase, reply) == (phase, None::<RestoreActionView>),
{
}

// ---------------------------------------------------------------------------
// What netsh says
// ---------------------------------------------------------------------------

/// A run succeeds if netsh says so. One that netsh calls a failure succeeds only where the
/// command may find its state reached already and netsh says that; any other failure is
/// reported with what netsh wrote.
pub proof fn netsh_failures_are_reported(idempotent: bool, success: bool, text: Seq<char>)
    ensures
        success ==> netsh_result(idempotent, success, text) == Ok::<(), ErrorView>(()),
        !success && !idempotent ==> netsh_result(idempotent, success, text) == Err::<(), _>(
            ErrorView::Network("netsh 失败: "@ + text),
        ),
        !success && idempotent ==> match netsh_result(idempotent, success, text) {
            Ok(_) => says_one_of_four(text),
            Err(e) => !says_one_of_four(text) && e == ErrorView::Network("netsh 失败: "@ + text),
        },
{
    lemma_occurs("已在此接口上启用 DHCP"@, text);
    lemma_occurs("DHCP is already enabled"@, text);
    lemma_occurs("已在此接口上启用"@, text);
    lemma_occurs("The object is already in the state"@, text);
}

/// Whether a text stands somewhere in another.
pub open spec fn occurs(part: Seq<char>, text: Seq<char>) -> bool {
    exists|a: Seq<char>, b: Seq<char>| #[trigger] (a + part + b) == text
}

/// Whether a text holds one of the sentences for a state that is reached already.
pub open spec fn says_one_of_four(text: Seq<char>) -> bool {
    ||| occurs("已在此接口上启用 DHCP"@, text)
    ||| occurs("DHCP is already enabled"@, text)
    ||| occurs("已在此接口上启用"@, text)
    ||| occurs("The object is already in the state"@, text)
}

proof fn lemma_occurs(part: Seq<char>, text: Seq<char>)
    ensures
        occurs(part, text) == crate::text::contains_text(text, part),
{
    if occurs(part, text) {
        let (a, b) = choose|a: Seq<char>, b: Seq<char>| #[trigger] (a + part + b) == text;
        let i = a.len() as int;
        assert(text.subrange(i, i + part.len()) =~= part);
        assert(crate::text::stands_at(text, part, i));
    }
    if crate::text::contains_text(text, part) {
        let i = choose|i: int| crate::text::stands_at(text, part, i);
        let a = text.take(i);
        let b = text.skip(i + part.len());
        assert(a + part + b =~= text);
    }
}

/// What netsh wrote on either output reaches the message: without white space around it and
/// with nothing in between but one space.
pub proof fn both_outputs_are_reported(out: Seq<char>, err: Seq<char>)
    requires
        crate::text::trimmed(out) == out,
        crate::text::trimmed(err) == err,
    ensures
        out.len() > 0 && err.len() > 0 ==> output_text(out, err) == out + seq![' '] + err,
        out.len() > 0 && err.len() == 0 ==> output_text(out, err) == out,
        out.len() == 0 && err.len() > 0 ==> output_text(out, err) == err,
{
    reveal_strlit(" ");
    let whole = out + " "@ + err;
    assert(" "@ =~= seq![' ']);
    if out.len() > 0 {
        crate::text::trimmed_text_has_no_space_around(out);
    }
    if err.len() > 0 {
        crate::text::trimmed_text_has_no_space_around(err);
    }
    if out.len() > 0 && err.len() > 0 {
        assert(whole[0] == out[0]);
        assert(whole.last() == err.last());
        assert(whole =~= out + seq![' '] + err);
    } else if out.len() > 0 {
        assert(whole =~= out.push(' '));
        assert(whole[0] == out[0]);
        assert(whole.drop_last() =~= out);
        reveal_with_fuel(crate::text::trim_end, 2);
    } else if err.len() > 0 {
        assert(whole =~= seq![' '] + err);
        assert(whole.skip(1) =~= err);
        reveal_with_fuel(crate::text::trim_start, 2);
    }
}

/// What the host is asked for, and what it answers, is what was meant.
pub proof fn host_restores_what_was_decided(
    p: RestorePhase,
    r: RestoreReply,
    a: RestoreAction,
    c: NetshCommand,
    v: Seq<NetshCommand>,
)
    ensures
        p is Loading ==> p@ is Loading,
        p matches RestorePhase::Listing(s) ==> p@ == RestorePhaseView::Listing(s@),
        p is Running ==> p@ is Running,
        p is Clearing ==> p@ is Clearing,
        p is Finished ==> p@ is Finished,
        r matches RestoreReply::Snapshot(Ok(Some(s))) ==> r@ == RestoreReplyView::Snapshot(
            Ok(Some(s@)),
        ),
        r matches RestoreReply::Snapshot(Ok(None)) ==> r@ == RestoreReplyView::Snapshot(Ok(None)),
        r matches RestoreReply::Snapshot(Err(e)) ==> r@ == RestoreReplyView::Snapshot(Err(e@)),
        r matches RestoreReply::Adapters(Ok(l)) ==> r@ == RestoreReplyView::Adapters(
            Ok(adapters_view(l@)),
        ),
        r matches RestoreReply::Adapters(Err(e)) ==> r@ == RestoreReplyView::Adapters(Err(e@)),
        r matches RestoreReply::Done(Ok(_)) ==> r@ == RestoreReplyView::Done(Ok(())),
        r matches RestoreReply::Done(Err(e)) ==> r@ == RestoreReplyView::Done(Err(e@)),
        restore_action_view(None) is None,
        restore_action_view(Some(a)) == Some(a@),
        a is LoadSnapshot ==> a@ is LoadSnapshot,
        a is ListAdapters ==> a@ is ListAdapters,
        a matches RestoreAction::Run(x) ==> a@ == RestoreActionView::Run(commands_view(x@)),
        a is ClearSnapshot ==> a@ is ClearSnapshot,
        a matches RestoreAction::Finish(Ok(_)) ==> a@ == RestoreActionView::Finish(Ok(())),
        a matches RestoreAction::Finish(Err(e)) ==> a@ == RestoreActionView::Finish(Err(e@)),
        c@.idempotent == c.idempotent,
        c@.args.len() == c.args@.len(),
        forall|i: int| 0 <= i < c.args@.len() ==> #[trigger] c@.args[i] == c.args@[i]@,
        commands_view(v).len() == v.len(),
        forall|i: int| 0 <= i < v.len() ==> #[trigger] commands_view(v)[i] == v[i]@,
{
}

} // verus!
