//! What the window shows, and what it makes of what the user types.

use vstd::arithmetic::power2::pow2;
use vstd::prelude::*;

use crate::adapter_reconfig::v4_addresses;
use crate::addr::{from_value, mask_value, IpAddr, Ipv4Addr};
use crate::display::{
    age_text, announces, brief_ips, display_name, health_color, health_text, leap_between,
    mask_or_dashes, notifications, shown_adapter, AdapterDisplay,
};
use crate::forms::{
    addresses_of, at_least_one_of, config_of, dns_list, form_number, form_of, ips_text, items_of,
    optional_ip, separators, ConfigForm, FormView,
};
use crate::ip_text::{ip_of_text, ip_text, v4_of_text, v4_text};
use crate::net_laws::mask_has_as_many_ones;
use crate::notify::{xml_char, xml_text, FALLBACK_BODY, FALLBACK_TITLE};
use crate::number::dec;
use crate::protocol::{AdapterView, ConfigView, HealthStatus, Timestamp};
use crate::switch_laws::{is_first, lemma_first_is_found, lemma_none_is_found};
use crate::text::{any_of, pieces};
use crate::text_laws::{
    is_blank, separator_parts_the_pieces, text_without_separator_is_one_piece,
    trimming_takes_white_space_away,
};

verus! {

// ---------------------------------------------------------------------------
// Adapters
// ---------------------------------------------------------------------------

/// Addresses are written one after the other with a comma and a space between them.
pub proof fn addresses_are_written_in_order(ip: Ipv4Addr, a: Seq<Ipv4Addr>, b: Seq<Ipv4Addr>)
    ensures
        ips_text(Seq::empty()).len() == 0,
        ips_text(seq![ip]) == v4_text(ip),
        a.len() > 0 && b.len() > 0 ==> ips_text(a + b) == ips_text(a) + ", "@ + ips_text(b),
    decreases a.len(),
{
    if a.len() > 0 && b.len() > 0 {
        let all = a + b;
        assert(all[0] == a[0]);
        if a.len() == 1 {
            assert(all.skip(1) =~= b);
        } else {
            addresses_are_written_in_order(ip, a.skip(1), b);
            assert(all.skip(1) =~= a.skip(1) + b);
        }
        assert(ips_text(all) =~= ips_text(a) + ", "@ + ips_text(b));
    }
}

/// At most two addresses are shown: the first two of IPv4, as far as there are so many.
pub proof fn two_addresses_are_shown(ips: Seq<IpAddr>)
    ensures
        ({
            let v = v4_addresses(ips);
            &&& v.len() == 0 ==> brief_ips(ips).len() == 0
            &&& v.len() == 1 ==> brief_ips(ips) == v4_text(v[0])
            &&& v.len() >= 2 ==> brief_ips(ips) == v4_text(v[0]) + ", "@ + v4_text(v[1])
        }),
{
    let v = v4_addresses(ips);
    if v.len() >= 2 {
        let two = v.take(2);
        assert(two =~= if v.len() > 2 {
            v.take(2)
        } else {
            v
        });
        assert(two =~= seq![v[0]] + seq![v[1]]);
        addresses_are_written_in_order(v[0], seq![v[0]], seq![v[1]]);
        addresses_are_written_in_order(v[1], seq![v[0]], seq![v[1]]);
    }
}

/// An adapter is listed by its name, with a mark exactly if it is not connected.
pub proof fn unconnected_adapter_is_marked(a: AdapterView)
    ensures
        a.is_connected ==> display_name(a) == a.name,
        !a.is_connected ==> display_name(a) == a.name + "（未连接）"@,
{
}

/// Of the selected adapter its addresses, its first mask, its routers and its name servers
/// are shown, each with dashes for nothing.
pub proof fn selected_adapter_is_shown(list: Seq<AdapterView>, i: int, id: Seq<char>)
    requires
        is_first(list, i, id),
    ensures
        ({
            let d = shown_adapter(list, id);
            let a = list[i];
            &&& d.ip == if a.ipv4.len() == 0 {
                "--"@
            } else {
                brief_ips(a.ipv4)
            }
            &&& d.gateway == if a.gateway.len() == 0 {
                "--"@
            } else {
                brief_ips(a.gateway)
            }
            &&& d.dns == if a.dns.len() == 0 {
                "--"@
            } else {
                brief_ips(a.dns)
            }
            &&& d.mask == mask_or_dashes(a.ipv4_prefixes)
        }),
{
    lemma_first_is_found(list, i, id);
}

/// Where no adapter is selected, there is nothing but dashes.
pub proof fn no_adapter_is_shown_as_dashes(list: Seq<AdapterView>, id: Seq<char>, d: AdapterDisplay)
    requires
        forall|k: int| 0 <= k < list.len() ==> (#[trigger] list[k]).id != id,
    ensures
        shown_adapter(list, id).ip == "--"@,
        shown_adapter(list, id).mask == "--"@,
        shown_adapter(list, id).gateway == "--"@,
        shown_adapter(list, id).dns == "--"@,
        d@.ip == d.ip@,
        d@.mask == d.mask@,
        d@.gateway == d.gateway@,
        d@.dns == d.dns@,
{
    lemma_none_is_found(list, id);
}

/// The mask that is shown has as many ones as the first prefix is long; there are dashes
/// where there is none or it is longer than an address.
pub proof fn mask_is_that_of_the_first_prefix(prefixes: Seq<u8>)
    ensures
        prefixes.len() == 0 ==> mask_or_dashes(prefixes) == "--"@,
        prefixes.len() > 0 && prefixes[0] > 32 ==> mask_or_dashes(prefixes) == "--"@,
        prefixes.len() > 0 && prefixes[0] <= 32 ==> exists|m: Ipv4Addr|
            mask_or_dashes(prefixes) == #[trigger] v4_text(m) && m.a * 0x100_0000 + m.b * 0x1_0000
                + m.c * 0x100 + m.d + pow2((32 - prefixes[0]) as nat) == 0x1_0000_0000,
{
    if prefixes.len() > 0 && prefixes[0] <= 32 {
        mask_has_as_many_ones(prefixes[0]);
        let m = from_value(mask_value(prefixes[0] as nat));
        assert(mask_or_dashes(prefixes) == v4_text(m));
    }
}

// ---------------------------------------------------------------------------
// The core's state
// ---------------------------------------------------------------------------

/// Every state of health has its own text, and a row of failures is shown with its length.
pub proof fn health_is_shown_in_words(n: u32)
    ensures
        health_text(HealthStatus::Idle) == "直连（未启用）"@,
        health_text(HealthStatus::Healthy) == "旁路由生效"@,
        health_text((HealthStatus::Degraded { consecutive_failures: n })) == "探测中（失败 "@ + dec(
            n as nat,
        ) + " 次）"@,
        health_text(HealthStatus::Fallback) == "异常已自动回退"@,
        health_text(HealthStatus::Recovered) == "检测恢复"@,
{
}

/// The icon has the color of the bypass exactly while it is in use, probed well or not, and
/// the color of a fallback exactly after it was given up.
pub proof fn icon_shows_whether_the_bypass_is_used(h: HealthStatus)
    ensures
        health_color(h) is Bypass <==> h is Healthy || h is Degraded,
        health_color(h) is Fallback <==> h is Fallback,
        health_color(h) is Direct <==> h is Idle || h is Recovered,
{
}

/// How long ago something was is told in whole minutes, or as just now for less than one.
pub proof fn age_is_told_in_minutes(last: Timestamp, now: Timestamp, minutes: nat)
    requires
        last.secs > 0,
        last.nanos < 1_000_000_000,
        now.nanos < 1_000_000_000,
    ensures
        ({
            let passed = (now.secs - last.secs) * 1_000_000_000 + (now.nanos - last.nanos);
            &&& passed < 60_000_000_000 ==> age_text(last, now) == "刚刚"@
            &&& minutes >= 1 && 60_000_000_000 * minutes <= passed && passed < 60_000_000_000 * (
            minutes + 1) ==> age_text(last, now) == dec(minutes) + "分钟前"@
        }),
{
    let passed = (now.secs - last.secs) * 1_000_000_000 + (now.nanos - last.nanos);
    if minutes >= 1 && 60_000_000_000 * minutes <= passed && passed < 60_000_000_000 * (minutes
        + 1) {
        assert(passed / 1_000_000_000 / 60 == minutes);
    }
}

/// Where it is not known when something was, dashes say so.
pub proof fn unknown_age_is_dashes(last: Timestamp, now: Timestamp)
    requires
        last.secs <= 0,
    ensures
        age_text(last, now) == "--"@,
{
}

/// A leap second counts where one of the moments lies in it and the other is later in the
/// day, forwards or backwards, and otherwise not.
pub proof fn leap_second_is_counted(from: Timestamp, to: Timestamp)
    ensures
        ({
            let (a, b) = (from.secs as int % 86_400, to.secs as int % 86_400);
            &&& a < b ==> leap_between(from, to) == if from.nanos >= 1_000_000_000 {
                1int
            } else {
                0
            }
            &&& b < a ==> leap_between(from, to) == if to.nanos >= 1_000_000_000 {
                -1int
            } else {
                0
            }
            &&& a == b ==> leap_between(from, to) == 0
            &&& leap_between(from, to) == -leap_between(to, from)
        }),
{
}

/// A leap second between two moments makes the time between them a second longer.
pub proof fn leap_second_makes_the_time_longer(last: Timestamp, now: Timestamp, minutes: nat)
    requires
        last.secs > 0,
        minutes >= 1,
    ensures
        ({
            let passed = (now.secs - last.secs + leap_between(last, now)) * 1_000_000_000 + (
            now.nanos - last.nanos);
            &&& passed < 60_000_000_000 ==> age_text(last, now) == "刚刚"@
            &&& 60_000_000_000 * minutes <= passed && passed < 60_000_000_000 * (minutes + 1)
                ==> age_text(last, now) == dec(minutes) + "分钟前"@
        }),
{
    let passed = (now.secs - last.secs + leap_between(last, now)) * 1_000_000_000 + (now.nanos
        - last.nanos);
    if 60_000_000_000 * minutes <= passed && passed < 60_000_000_000 * (minutes + 1) {
        assert(passed / 1_000_000_000 / 60 == minutes);
    }
}

/// The user is told at the look that first finds the bypass given up, and at no other; never
/// against their wish.
pub proof fn user_is_told_when_the_bypass_is_given_up(was: bool, now: bool, wanted: bool)
    ensures
        announces(false, true, true),
        announces(was, now, wanted) ==> wanted && now && !was,
{
}

/// Looks are counted one by one: one more look adds one exactly if it finds the bypass given
/// up that was not so before, and the user wants to be told.
pub proof fn one_more_look_tells_at_most_once(
    was: bool,
    looks: Seq<(bool, bool)>,
    now: bool,
    wanted: bool,
)
    ensures
        ({
            let before = if looks.len() == 0 {
                was
            } else {
                looks.last().0
            };
            notifications(was, looks.push((now, wanted))) == notifications(was, looks) + (if now
                && !before && wanted {
                1nat
            } else {
                0nat
            })
        }),
        notifications(was, Seq::empty()) == 0,
{
    let all = looks.push((now, wanted));
    assert(all.drop_last() =~= looks);
    if looks.len() > 0 {
        assert(all[all.len() - 2] == looks.last());
    }
}

// ---------------------------------------------------------------------------
// The settings form
// ---------------------------------------------------------------------------

/// Name servers are separated by commas, semicolons, blanks and tabs, in either width, and by
/// nothing else.
pub proof fn servers_are_separated_by_six_characters(c: char)
    ensures
        any_of(separators())(c) <==> c == ',' || c == ';' || c == '，' || c == '；' || c == ' '
            || c == '\t',
{
    let s = separators();
    assert(s[0] == ',' && s[1] == ';' && s[2] == '，' && s[3] == '；' && s[4] == ' ' && s[5]
        == '\t');
    if s.contains(c) {
        let k = choose|k: int| 0 <= k < s.len() && s[k] == c;
        assert(s[k] == c);
    }
}

/// The items of two lists of pieces put together are those of the one and then those of the
/// other.
pub proof fn items_are_kept_in_order(a: Seq<Seq<char>>, b: Seq<Seq<char>>)
    ensures
        items_of(a + b) == items_of(a) + items_of(b),
    decreases a.len(),
{
    let all = a + b;
    if a.len() == 0 {
        assert(all =~= b);
        assert(items_of(a) + items_of(b) =~= items_of(b));
    } else {
        items_are_kept_in_order(a.skip(1), b);
        assert(all.skip(1) =~= a.skip(1) + b);
        assert(all[0] == a[0]);
        assert(items_of(all) =~= items_of(a) + items_of(b));
    }
}

/// A piece is kept without the white space around it, and passed over if it is blank.
pub proof fn blank_pieces_are_passed_over(front: Seq<char>, core: Seq<char>, back: Seq<char>)
    requires
        is_blank(front),
        is_blank(back),
        core.len() > 0 ==> !crate::text_laws::is_white(core[0]) && !crate::text_laws::is_white(
            core.last(),
        ),
    ensures
        items_of(seq![front + core + back]) == if core.len() == 0 {
            Seq::<Seq<char>>::empty()
        } else {
            seq![core]
        },
{
    trimming_takes_white_space_away(front, core, back);
    let s = seq![front + core + back];
    assert(s.skip(1) =~= Seq::<Seq<char>>::empty());
    reveal_with_fuel(items_of, 2);
    assert(items_of(s) =~= if core.len() == 0 {
        Seq::<Seq<char>>::empty()
    } else {
        seq![core]
    });
}

/// Where every item writes an address, these are the name servers, in order.
pub proof fn every_item_gives_a_server(items: Seq<Seq<char>>, ips: Seq<IpAddr>)
    requires
        items.len() == ips.len(),
        forall|i: int| 0 <= i < items.len() ==> ip_of_text(#[trigger] items[i]) == Some(ips[i]),
    ensures
        addresses_of(items) == Ok::<_, Seq<char>>(ips),
    decreases items.len(),
{
    if items.len() > 0 {
        assert forall|i: int| 0 <= i < items.drop_last().len() implies ip_of_text(
            #[trigger] items.drop_last()[i],
        ) == Some(ips.drop_last()[i]) by {
            assert(items[i] == items.drop_last()[i]);
        }
        every_item_gives_a_server(items.drop_last(), ips.drop_last());
        assert(ip_of_text(items[items.len() - 1]) == Some(ips[ips.len() - 1]));
        assert(ips.drop_last().push(ips.last()) =~= ips);
    } else {
        assert(ips =~= Seq::<IpAddr>::empty());
    }
}

/// The first item that writes no address is named as the fault.
pub proof fn first_bad_item_is_named(
    good: Seq<Seq<char>>,
    bad: Seq<char>,
    rest: Seq<Seq<char>>,
)
    requires
        forall|i: int| 0 <= i < good.len() ==> ip_of_text(#[trigger] good[i]) is Some,
        ip_of_text(bad) is None,
    ensures
        addresses_of(good.push(bad) + rest) == Err::<Seq<IpAddr>, _>("DNS 地址无效: "@ + bad),
    decreases rest.len(),
{
    let all = good.push(bad) + rest;
    if rest.len() == 0 {
        let ips = Seq::new(good.len(), |i: int| ip_of_text(good[i])->0);
        every_item_gives_a_server(good, ips);
        assert(all =~= good.push(bad));
        assert(all.drop_last() =~= good);
    } else {
        first_bad_item_is_named(good, bad, rest.drop_last());
        assert(all.drop_last() =~= good.push(bad) + rest.drop_last());
    }
}

/// The name servers of a text are those that its items write; a text without items names
/// none.
pub proof fn servers_are_those_of_the_items(text: Seq<char>)
    ensures
        ({
            let items = items_of(pieces(text, any_of(separators())));
            &&& items.len() == 0 ==> dns_list(text) == Ok::<_, Seq<char>>(None::<Seq<IpAddr>>)
            &&& items.len() > 0 ==> match addresses_of(items) {
                Ok(v) => dns_list(text) == Ok::<_, Seq<char>>(Some(v)),
                Err(e) => dns_list(text) == Err::<Option<Seq<IpAddr>>, _>(e),
            }
        }),
{
}

/// A single address, with white space around it or not, is the only name server.
pub proof fn single_server_is_read(t: Seq<char>, ip: IpAddr)
    requires
        ip_of_text(t) == Some(ip),
        t.len() > 0,
        !crate::text_laws::is_white(t[0]),
        !crate::text_laws::is_white(t.last()),
        forall|i: int| 0 <= i < t.len() ==> !any_of(separators())(#[trigger] t[i]),
    ensures
        dns_list(t) == Ok::<_, Seq<char>>(Some(seq![ip])),
{
    let e = Seq::<char>::empty();
    text_without_separator_is_one_piece(t, any_of(separators()));
    blank_pieces_are_passed_over(e, t, e);
    assert(e + t + e =~= t);
    every_item_gives_a_server(seq![t], seq![ip]);
}

/// A separator between two lists makes one list of them: the items of the one and then those
/// of the other.
pub proof fn separator_joins_two_lists(a: Seq<char>, c: char, b: Seq<char>)
    requires
        c == ',' || c == ';' || c == '，' || c == '；' || c == ' ' || c == '\t',
    ensures
        items_of(pieces(a.push(c) + b, any_of(separators()))) == items_of(
            pieces(a, any_of(separators())),
        ) + items_of(pieces(b, any_of(separators()))),
{
    servers_are_separated_by_six_characters(c);
    separator_parts_the_pieces(a, c, b, any_of(separators()));
    items_are_kept_in_order(pieces(a, any_of(separators())), pieces(b, any_of(separators())));
}

/// An optional field is an address in dotted decimal, with white space around it or not, or
/// blank.
pub proof fn optional_field_may_be_blank(front: Seq<char>, core: Seq<char>, back: Seq<char>)
    requires
        is_blank(front),
        is_blank(back),
        core.len() > 0 ==> !crate::text_laws::is_white(core[0]) && !crate::text_laws::is_white(
            core.last(),
        ),
    ensures
        core.len() == 0 ==> optional_ip(front + core + back) == Some(None::<Ipv4Addr>),
        core.len() > 0 ==> match v4_of_text(core) {
            Some(ip) => optional_ip(front + core + back) == Some(Some(ip)),
            None => optional_ip(front + core + back) is None,
        },
{
    trimming_takes_white_space_away(front, core, back);
}

/// A form that can be read gives a configuration with what its fields say. Numbers are at
/// least one, the mask is 255.255.255.0 where none is given, and no adapter is named.
pub proof fn form_is_read_field_by_field(
    f: FormView,
    router: IpAddr,
    own: Option<Ipv4Addr>,
    mask: Option<Ipv4Addr>,
    dns: Option<Seq<IpAddr>>,
)
    requires
        ip_of_text(f.bypass_ip) == Some(router),
        optional_ip(f.static_ip) == Some(own),
        optional_ip(f.mask) == Some(mask),
        dns_list(f.dns) == Ok::<_, Seq<char>>(dns),
    ensures
        config_of(f) is Ok,
        ({
            let c = config_of(f)->Ok_0;
            &&& c.adapter_id.len() == 0
            &&& c.bypass_ip == router
            &&& c.switch_mode is AdapterReconfig <==> f.mode_index == 1
            &&& c.dns_override == dns
            &&& mask matches Some(m) ==> c.subnet_mask == Some(m)
            &&& mask is None ==> c.subnet_mask == Some(Ipv4Addr { a: 255, b: 255, c: 255, d: 0 })
            &&& c.static_ip == own
            &&& c.health_check_interval_secs == if f.interval_secs < 1 {
                1int
            } else {
                f.interval_secs as int
            }
            &&& c.failure_threshold == if f.failure_threshold < 1 {
                1int
            } else {
                f.failure_threshold as int
            }
            &&& c.auto_reenable_after_recovery == f.auto_reenable
            &&& c.notifications_enabled == f.notifications
        }),
{
}

/// A form that cannot be read is refused with the first field that is at fault.
pub proof fn faulty_field_is_named(f: FormView)
    ensures
        ip_of_text(f.bypass_ip) is None ==> config_of(f) == Err::<ConfigView, _>(
            "旁路由 IP 无效"@,
        ),
        ip_of_text(f.bypass_ip) is Some && optional_ip(f.static_ip) is None ==> config_of(f)
            == Err::<ConfigView, _>("网卡静态 IP 无效（如 192.168.2.100）"@),
        ip_of_text(f.bypass_ip) is Some && optional_ip(f.static_ip) is Some && optional_ip(f.mask)
            is None ==> config_of(f) == Err::<ConfigView, _>(
            "子网掩码无效（如 255.255.255.0）"@,
        ),
        ip_of_text(f.bypass_ip) is Some && optional_ip(f.static_ip) is Some && optional_ip(f.mask)
            is Some ==> (dns_list(f.dns) matches Err(e) ==> config_of(f) == Err::<ConfigView, _>(
            e,
        )),
{
}

/// A configuration is shown setting by setting; what is not set is left blank, but for the
/// mask.
pub proof fn configuration_is_shown_in_the_form(c: ConfigView, f: ConfigForm)
    ensures
        ({
            let v = form_of(c);
            &&& v.bypass_ip == ip_text(c.bypass_ip)
            &&& c.static_ip matches Some(ip) ==> v.static_ip == v4_text(ip)
            &&& c.static_ip is None ==> v.static_ip.len() == 0
            &&& c.subnet_mask matches Some(m) ==> v.mask == v4_text(m)
            &&& c.subnet_mask is None ==> v.mask == "255.255.255.0"@
            &&& c.dns_override matches Some(l) ==> v.dns == ips_text(v4_addresses(l))
            &&& c.dns_override is None ==> v.dns.len() == 0
            &&& c.switch_mode is RouteOverlay ==> v.mode_index == 0
            &&& c.switch_mode is AdapterReconfig ==> v.mode_index == 1
            &&& v.interval_secs == form_number(c.health_check_interval_secs)
            &&& v.failure_threshold == form_number(c.failure_threshold)
            &&& v.auto_reenable == c.auto_reenable_after_recovery
            &&& v.notifications == c.notifications_enabled
        }),
        f@.bypass_ip == f.bypass_ip@,
        f@.static_ip == f.static_ip@,
        f@.mask == f.mask@,
        f@.dns == f.dns@,
        f@.mode_index == f.mode_index,
        f@.interval_secs == f.interval_secs,
        f@.failure_threshold == f.failure_threshold,
        f@.auto_reenable == f.auto_reenable,
        f@.notifications == f.notifications,
{
}

/// A number is shown as it is, as far as the form's range goes; beyond that it is short by
/// 2^32.
pub proof fn number_is_shown_as_it_is(n: u32)
    ensures
        n < 0x8000_0000 ==> form_number(n) == n,
        n >= 0x8000_0000 ==> form_number(n) == n - 0x1_0000_0000,
        at_least_one_of(form_number(n)) >= 1,
{
}

// ---------------------------------------------------------------------------
// The notification
// ---------------------------------------------------------------------------

/// Text is escaped character by character.
pub proof fn text_is_escaped_in_order(a: Seq<char>, b: Seq<char>)
    ensures
        xml_text(a + b) == xml_text(a) + xml_text(b),
    decreases b.len(),
{
    if b.len() == 0 {
        assert(a + b =~= a);
        assert(xml_text(a) + xml_text(b) =~= xml_text(a));
    } else {
        text_is_escaped_in_order(a, b.drop_last());
        assert((a + b).drop_last() =~= a + b.drop_last());
        assert((a + b).last() == b.last());
        assert(xml_text(a + b) =~= xml_text(a) + xml_text(b));
    }
}

/// Four characters are written by their names, any other as itself.
pub proof fn four_characters_are_escaped(c: char)
    ensures
        xml_text(seq!['&']) == "&amp;"@,
        xml_text(seq!['<']) == "&lt;"@,
        xml_text(seq!['>']) == "&gt;"@,
        xml_text(seq!['"']) == "&quot;"@,
        c != '&' && c != '<' && c != '>' && c != '"' ==> xml_text(seq![c]) == seq![c],
{
    lemma_single_escaped('&');
    lemma_single_escaped('<');
    lemma_single_escaped('>');
    lemma_single_escaped('"');
    lemma_single_escaped(c);
}

proof fn lemma_single_escaped(c: char)
    ensures
        xml_text(seq![c]) == xml_char(c),
{
    assert(seq![c].drop_last() =~= Seq::<char>::empty());
    reveal_with_fuel(xml_text, 2);
    assert(xml_text(seq![c]) =~= xml_char(c));
}

/// What the user is told when the bypass is given up.
pub proof fn notification_says_what_happened()
    ensures
        FALLBACK_TITLE@ == "旁路由异常"@,
        FALLBACK_BODY@ == "旁路由异常，已自动切回直连"@,
{
}

} // verus!
