//! The settings form: what the user typed, and the configuration that it stands for.

use vstd::prelude::*;

use crate::adapter_reconfig::{only_v4, v4_addresses};
use crate::addr::{class_c_mask, default_mask, IpAddr, Ipv4Addr};
use crate::ip_text::{
    ip_of_text, ip_text, ip_text_reads_back, ip_to_text, ipv4_text, ipv4_text_reads_back,
    lemma_v4_text_chars, parse_ip, parse_ipv4, v4_of_text, v4_text,
};
use crate::number::dec;
use crate::protocol::{list_view, AppConfig, ConfigView, SwitchMode};
use crate::text::{
    any_of, concat2, is_space, lemma_first_where_at, pieces, same_text, split_any, texts_view,
    trim, trimmed,
};

verus! {

/// The mask that the form shows where none is configured.
pub const DEFAULT_MASK: &'static str = "255.255.255.0";

// ---------------------------------------------------------------------------
// Lists of name servers
// ---------------------------------------------------------------------------

/// What separates name servers.
pub open spec fn separators() -> Seq<char> {
    seq![',', ';', '，', '；', ' ', '\t']
}

/// The pieces that are not blank, without white space around them.
pub open spec fn items_of(ps: Seq<Seq<char>>) -> Seq<Seq<char>>
    decreases ps.len(),
{
    if ps.len() == 0 {
        seq![]
    } else if trimmed(ps[0]).len() == 0 {
        items_of(ps.skip(1))
    } else {
        seq![trimmed(ps[0])] + items_of(ps.skip(1))
    }
}

/// The addresses that items write, or what is wrong with the first that writes none.
pub open spec fn addresses_of(items: Seq<Seq<char>>) -> Result<Seq<IpAddr>, Seq<char>>
    decreases items.len(),
{
    if items.len() == 0 {
        Ok(seq![])
    } else {
        match addresses_of(items.drop_last()) {
            Err(e) => Err(e),
            Ok(v) => match ip_of_text(items.last()) {
                Some(ip) => Ok(v.push(ip)),
                None => Err("DNS 地址无效: "@ + items.last()),
            },
        }
    }
}

/// The name servers that a text lists; none for a blank text.
pub open spec fn dns_list(text: Seq<char>) -> Result<Option<Seq<IpAddr>>, Seq<char>> {
    let items = items_of(pieces(text, any_of(separators())));
    if items.len() == 0 {
        Ok(None)
    } else {
        match addresses_of(items) {
            Ok(v) => Ok(Some(v)),
            Err(e) => Err(e),
        }
    }
}

fn separator_list() -> (v: Vec<char>)
    ensures
        v@ == separators(),
{
    let mut v: Vec<char> = Vec::new();
    v.push(',');
    v.push(';');
    v.push('，');
    v.push('；');
    v.push(' ');
    v.push('\t');
    assert(v@ =~= separators());
    v
}

fn is_empty_text(s: &str) -> (r: bool)
    ensures
        r == (s@.len() == 0),
{
    proof {
        reveal_strlit("");
        if s@.len() == 0 {
            assert(s@ =~= ""@);
        }
    }
    same_text(s, "")
}

fn keep_items(ps: &Vec<String>) -> (out: Vec<String>)
    ensures
        texts_view(out@) == items_of(texts_view(ps@)),
{
    let ghost all = texts_view(ps@);
    let mut out: Vec<String> = Vec::new();
    let mut i: usize = 0;
    assert(all.skip(0) =~= all);
    assert(texts_view(out@) + items_of(all) =~= items_of(all));
    while i < ps.len()
        invariant
            i <= ps@.len(),
            all == texts_view(ps@),
            texts_view(out@) + items_of(all.skip(i as int)) == items_of(all),
        decreases ps@.len() - i,
    {
        let ghost rest = all.skip(i as int);
        let ghost before = texts_view(out@);
        assert(rest[0] == ps@[i as int]@);
        assert(rest.skip(1) =~= all.skip(i + 1));
        let item = trim(ps[i].as_str());
        if !is_empty_text(item.as_str()) {
            out.push(item);
            assert(texts_view(out@) =~= before.push(item@));
            assert(before + (seq![item@] + items_of(all.skip(i + 1))) =~= texts_view(out@)
                + items_of(all.skip(i + 1)));
        }
        i = i + 1;
    }
    assert(all.skip(all.len() as int) =~= Seq::<Seq<char>>::empty());
    assert(texts_view(out@) + Seq::<Seq<char>>::empty() =~= texts_view(out@));
    out
}

/// Reads a list of name servers, separated by commas, semicolons or white space. A blank
/// text lists none.
pub fn parse_dns_list(text: &str) -> (r: Result<Option<Vec<IpAddr>>, String>)
    ensures
        match r {
            Ok(v) => dns_list(text@) == Ok::<_, Seq<char>>(list_view(v)),
            Err(e) => dns_list(text@) == Err::<Option<Seq<IpAddr>>, _>(e@),
        },
{
    let set = separator_list();
    let ps = split_any(text, &set);
    let items = keep_items(&ps);
    let ghost all = texts_view(items@);
    if items.len() == 0 {
        return Ok(None);
    }
    let mut out: Vec<IpAddr> = Vec::new();
    let mut i: usize = 0;
    assert(all.take(0) =~= Seq::<Seq<char>>::empty());
    assert(out@ =~= Seq::<IpAddr>::empty());
    while i < items.len()
        invariant
            i <= items@.len(),
            all == texts_view(items@),
            all == items_of(pieces(text@, any_of(separators()))),
            all.len() > 0,
            addresses_of(all.take(i as int)) == Ok::<_, Seq<char>>(out@),
        decreases items@.len() - i,
    {
        assert(all.take(i + 1).drop_last() =~= all.take(i as int));
        assert(all.take(i + 1).last() == items@[i as int]@);
        match parse_ip(items[i].as_str()) {
            Some(ip) => {
                out.push(ip);
            },
            None => {
                proof {
                    lemma_error_carries(all, i + 1);
                }
                return Err(concat2("DNS 地址无效: ", items[i].as_str()));
            },
        }
        i = i + 1;
    }
    assert(all.take(all.len() as int) =~= all);
    Ok(Some(out))
}

proof fn lemma_error_carries(items: Seq<Seq<char>>, n: int)
    requires
        0 <= n <= items.len(),
        addresses_of(items.take(n)) is Err,
    ensures
        addresses_of(items) == addresses_of(items.take(n)),
    decreases items.len() - n,
{
    if n < items.len() {
        assert(items.take(n + 1).drop_last() =~= items.take(n));
        lemma_error_carries(items, n + 1);
    } else {
        assert(items.take(n) =~= items);
    }
}

/// Addresses in a row, separated by a comma and a space.
pub open spec fn ips_text(list: Seq<Ipv4Addr>) -> Seq<char>
    decreases list.len(),
{
    if list.len() == 0 {
        seq![]
    } else if list.len() == 1 {
        v4_text(list[0])
    } else {
        v4_text(list[0]) + ", "@ + ips_text(list.skip(1))
    }
}

/// Writes addresses in a row, separated by a comma and a space.
pub fn join_ips(list: &Vec<Ipv4Addr>, n: usize) -> (out: String)
    requires
        n <= list@.len(),
    ensures
        out@ == ips_text(list@.take(n as int)),
{
    let ghost all = list@.take(n as int);
    let mut out = String::new();
    let mut i: usize = 0;
    assert(all.skip(0) =~= all);
    assert(out@ + ips_text(all) =~= ips_text(all));
    while i < n
        invariant
            i <= n <= list@.len(),
            all == list@.take(n as int),
            out@ + ips_text(all.skip(i as int)) == ips_text(all),
        decreases n - i,
    {
        let ghost rest = all.skip(i as int);
        let ghost before = out@;
        assert(rest[0] == list@[i as int]);
        assert(rest.skip(1) =~= all.skip(i + 1));
        let text = ipv4_text(list[i]);
        out.append(text.as_str());
        if n - i > 1 {
            out.append(", ");
            assert(before + (text@ + ", "@ + ips_text(all.skip(i + 1))) =~= out@ + ips_text(
                all.skip(i + 1),
            ));
        } else {
            assert(all.skip(i + 1) =~= Seq::<Ipv4Addr>::empty());
            assert(before + text@ =~= out@ + ips_text(all.skip(i + 1)));
        }
        i = i + 1;
    }
    assert(all.skip(n as int) =~= Seq::<Ipv4Addr>::empty());
    assert(out@ + Seq::<char>::empty() =~= out@);
    out
}

// ---------------------------------------------------------------------------
// The form
// ---------------------------------------------------------------------------

/// The settings form.
#[derive(Debug)]
pub struct ConfigForm {
    pub bypass_ip: String,
    pub static_ip: String,
    pub mask: String,
    pub dns: String,
    pub mode_index: i32,
    pub interval_secs: i32,
    pub failure_threshold: i32,
    pub auto_reenable: bool,
    pub notifications: bool,
}

/// The settings form by its contents.
pub struct FormView {
    pub bypass_ip: Seq<char>,
    pub static_ip: Seq<char>,
    pub mask: Seq<char>,
    pub dns: Seq<char>,
    pub mode_index: i32,
    pub interval_secs: i32,
    pub failure_threshold: i32,
    pub auto_reenable: bool,
    pub notifications: bool,
}

impl View for ConfigForm {
    type V = FormView;

    open spec fn view(&self) -> FormView {
        FormView {
            bypass_ip: self.bypass_ip@,
            static_ip: self.static_ip@,
            mask: self.mask@,
            dns: self.dns@,
            mode_index: self.mode_index,
            interval_secs: self.interval_secs,
            failure_threshold: self.failure_threshold,
            auto_reenable: self.auto_reenable,
            notifications: self.notifications,
        }
    }
}

/// A number of the form, but at least one.
pub open spec fn at_least_one_of(n: i32) -> u32 {
    if n < 1 {
        1
    } else {
        n as u32
    }
}

/// The address in an optional field: none where the field is blank.
pub open spec fn optional_ip(field: Seq<char>) -> Option<Option<Ipv4Addr>> {
    if trimmed(field).len() == 0 {
        Some(None)
    } else {
        match v4_of_text(trimmed(field)) {
            Some(ip) => Some(Some(ip)),
            None => None,
        }
    }
}

/// The configuration that the form stands for, but for the adapter, or what is wrong
/// with the form.
pub open spec fn config_of(f: FormView) -> Result<ConfigView, Seq<char>> {
    match ip_of_text(f.bypass_ip) {
        None => Err("旁路由 IP 无效"@),
        Some(bypass_ip) => match optional_ip(f.static_ip) {
            None => Err("网卡静态 IP 无效（如 192.168.2.100）"@),
            Some(static_ip) => match optional_ip(f.mask) {
                None => Err("子网掩码无效（如 255.255.255.0）"@),
                Some(mask) => match dns_list(f.dns) {
                    Err(e) => Err(e),
                    Ok(dns) => Ok(
                        ConfigView {
                            bypass_ip,
                            switch_mode: if f.mode_index == 1 {
                                SwitchMode::AdapterReconfig
                            } else {
                                SwitchMode::RouteOverlay
                            },
                            dns_override: dns,
                            subnet_mask: Some(
                                match mask {
                                    Some(m) => m,
                                    None => class_c_mask(),
                                },
                            ),
                            static_ip,
                            health_check_interval_secs: at_least_one_of(f.interval_secs),
                            failure_threshold: at_least_one_of(f.failure_threshold),
                            auto_reenable_after_recovery: f.auto_reenable,
                            notifications_enabled: f.notifications,
                            ..ConfigView::initial()
                        },
                    ),
                },
            },
        },
    }
}

/// A number as the form holds it: large ones come out negative.
pub open spec fn form_number(n: u32) -> i32 {
    if n <= 0x7fff_ffff {
        n as i32
    } else {
        (n - 0x1_0000_0000) as i32
    }
}

/// The form that shows a configuration.
pub open spec fn form_of(c: ConfigView) -> FormView {
    FormView {
        bypass_ip: ip_text(c.bypass_ip),
        static_ip: match c.static_ip {
            Some(ip) => v4_text(ip),
            None => seq![],
        },
        mask: match c.subnet_mask {
            Some(m) => v4_text(m),
            None => DEFAULT_MASK@,
        },
        dns: match c.dns_override {
            Some(list) => ips_text(v4_addresses(list)),
            None => seq![],
        },
        mode_index: match c.switch_mode {
            SwitchMode::RouteOverlay => 0,
            SwitchMode::AdapterReconfig => 1,
        },
        interval_secs: form_number(c.health_check_interval_secs),
        failure_threshold: form_number(c.failure_threshold),
        auto_reenable: c.auto_reenable_after_recovery,
        notifications: c.notifications_enabled,
    }
}

fn read_optional_ip(field: &str) -> (r: Option<Option<Ipv4Addr>>)
    ensures
        r == optional_ip(field@),
{
    let text = trim(field);
    if is_empty_text(text.as_str()) {
        return Some(None);
    }
    match parse_ipv4(text.as_str()) {
        Some(ip) => Some(Some(ip)),
        None => None,
    }
}

fn clamp(n: i32) -> (r: u32)
    ensures
        r == at_least_one_of(n),
{
    if n < 1 {
        1
    } else {
        n as u32
    }
}

pub(crate) fn to_form_number(n: u32) -> (r: i32)
    ensures
        r == form_number(n),
{
    if n <= 0x7fff_ffff {
        n as i32
    } else {
        (n as i64 - 0x1_0000_0000) as i32
    }
}

/// Reads the configuration from the form; the adapter is left for the caller to fill in.
pub fn build_config_from_ui(f: &ConfigForm) -> (r: Result<AppConfig, String>)
    ensures
        match r {
            Ok(c) => config_of(f@) == Ok::<_, Seq<char>>(c@),
            Err(e) => config_of(f@) == Err::<ConfigView, _>(e@),
        },
{
    let bypass_ip = match parse_ip(f.bypass_ip.as_str()) {
        Some(ip) => ip,
        None => {
            return Err("旁路由 IP 无效".to_owned());
        },
    };
    let static_ip = match read_optional_ip(f.static_ip.as_str()) {
        Some(ip) => ip,
        None => {
            return Err("网卡静态 IP 无效（如 192.168.2.100）".to_owned());
        },
    };
    let mask = match read_optional_ip(f.mask.as_str()) {
        Some(Some(m)) => m,
        Some(None) => default_mask(),
        None => {
            return Err("子网掩码无效（如 255.255.255.0）".to_owned());
        },
    };
    let dns = match parse_dns_list(f.dns.as_str()) {
        Ok(d) => d,
        Err(e) => {
            return Err(e);
        },
    };
    let mut cfg = AppConfig::default();
    cfg.bypass_ip = bypass_ip;
    if f.mode_index == 1 {
        cfg.switch_mode = SwitchMode::AdapterReconfig;
    }
    cfg.subnet_mask = Some(mask);
    cfg.static_ip = static_ip;
    cfg.dns_override = dns;
    cfg.health_check_interval_secs = clamp(f.interval_secs);
    cfg.failure_threshold = clamp(f.failure_threshold);
    cfg.auto_reenable_after_recovery = f.auto_reenable;
    cfg.notifications_enabled = f.notifications;
    Ok(cfg)
}

/// Shows a configuration in the form.
pub fn apply_config_to_ui(c: &AppConfig) -> (f: ConfigForm)
    ensures
        f@ == form_of(c@),
{
    let static_ip = match c.static_ip {
        Some(ip) => ipv4_text(ip),
        None => String::new(),
    };
    let mask = match c.subnet_mask {
        Some(m) => ipv4_text(m),
        None => DEFAULT_MASK.to_owned(),
    };
    let dns = match &c.dns_override {
        Some(list) => {
            let v4 = only_v4(list);
            assert(v4@.take(v4@.len() as int) =~= v4@);
            join_ips(&v4, v4.len())
        },
        None => String::new(),
    };
    ConfigForm {
        bypass_ip: ip_to_text(c.bypass_ip),
        static_ip,
        mask,
        dns,
        mode_index: match c.switch_mode {
            SwitchMode::RouteOverlay => 0,
            SwitchMode::AdapterReconfig => 1,
        },
        interval_secs: to_form_number(c.health_check_interval_secs),
        failure_threshold: to_form_number(c.failure_threshold),
        auto_reenable: c.auto_reenable_after_recovery,
        notifications: c.notifications_enabled,
    }
}

/// The initial configuration for the adapter that is selected. It names no router, so the
/// core refuses it as it refuses every configuration without one.
pub fn restore_default(current: &AppConfig) -> (c: AppConfig)
    ensures
        c@ == (ConfigView { adapter_id: current@.adapter_id, ..ConfigView::initial() }),
{
    let mut c = AppConfig::default();
    c.adapter_id = current.adapter_id.clone();
    c
}

// ---------------------------------------------------------------------------
// Laws
// ---------------------------------------------------------------------------

proof fn lemma_v4_chars(ip: Ipv4Addr)
    ensures
        v4_text(ip).len() > 0,
        forall|k: int|
            0 <= k < v4_text(ip).len() ==> !separators().contains(#[trigger] v4_text(ip)[k])
                && !is_space(v4_text(ip)[k]),
{
    lemma_v4_text_chars(ip);
}

proof fn lemma_v4_is_trimmed(ip: Ipv4Addr)
    ensures
        trimmed(v4_text(ip)) == v4_text(ip),
        v4_text(ip).len() > 0,
{
    lemma_v4_chars(ip);
    let t = v4_text(ip);
    assert(!is_space(t[0]));
    assert(!is_space(t[t.len() - 1]));
}

proof fn lemma_list_reads_back(list: Seq<Ipv4Addr>)
    requires
        list.len() > 0,
    ensures
        items_of(pieces(ips_text(list), any_of(separators()))) == list.map_values(
            |ip: Ipv4Addr| v4_text(ip),
        ),
    decreases list.len(),
{
    reveal_strlit(", ");
    let p = any_of(separators());
    let t = v4_text(list[0]);
    let s = ips_text(list);
    let want = list.map_values(|ip: Ipv4Addr| v4_text(ip));
    lemma_v4_chars(list[0]);
    lemma_v4_is_trimmed(list[0]);
    if list.len() == 1 {
        lemma_first_where_at(s, p, s.len() as int);
        assert(pieces(s, p) =~= seq![t]);
        assert(seq![t].skip(1) =~= Seq::<Seq<char>>::empty());
        reveal_with_fuel(items_of, 2);
        assert(items_of(seq![t]) =~= want);
    } else {
        let rest = ips_text(list.skip(1));
        lemma_list_reads_back(list.skip(1));
        let after = seq![' '] + rest;
        assert forall|k: int| 0 <= k < t.len() implies !p(#[trigger] s[k]) by {
            assert(s[k] == t[k]);
        }
        assert(s[t.len() as int] == ',');
        assert(separators()[0] == ',');
        assert(separators().contains(','));
        lemma_first_where_at(s, p, t.len() as int);
        assert(s.take(t.len() as int) =~= t);
        assert(s.skip(t.len() as int + 1) =~= after);
        assert(separators()[4] == ' ');
        assert(separators().contains(' '));
        lemma_first_where_at(after, p, 0);
        assert(after.take(0) =~= Seq::<char>::empty());
        assert(after.skip(1) =~= rest);
        let blank = Seq::<char>::empty();
        let tail = pieces(rest, p);
        assert(pieces(after, p) == seq![blank] + tail);
        let all = seq![t] + (seq![blank] + tail);
        assert(pieces(s, p) == all);
        assert(all.skip(1) =~= seq![blank] + tail);
        assert((seq![blank] + tail).skip(1) =~= tail);
        assert(trimmed(blank).len() == 0);
        assert(items_of(seq![blank] + tail) == items_of(tail));
        assert(items_of(all) == seq![t] + items_of(tail));
        assert(list.skip(1).map_values(|ip: Ipv4Addr| v4_text(ip)) =~= want.skip(1));
        assert(seq![t] + want.skip(1) =~= want);
    }
}

proof fn lemma_addresses_read_back(list: Seq<Ipv4Addr>)
    ensures
        addresses_of(list.map_values(|ip: Ipv4Addr| v4_text(ip))) == Ok::<_, Seq<char>>(
            list.map_values(|ip: Ipv4Addr| IpAddr::V4(ip)),
        ),
    decreases list.len(),
{
    let texts = list.map_values(|ip: Ipv4Addr| v4_text(ip));
    let ips = list.map_values(|ip: Ipv4Addr| IpAddr::V4(ip));
    if list.len() == 0 {
        assert(ips =~= Seq::<IpAddr>::empty());
    } else {
        lemma_addresses_read_back(list.drop_last());
        assert(texts.drop_last() =~= list.drop_last().map_values(|ip: Ipv4Addr| v4_text(ip)));
        assert(ips =~= list.drop_last().map_values(|ip: Ipv4Addr| IpAddr::V4(ip)).push(
            IpAddr::V4(list.last()),
        ));
        ipv4_text_reads_back(list.last());
    }
}

proof fn lemma_all_v4(list: Seq<IpAddr>)
    requires
        forall|i: int| 0 <= i < list.len() ==> #[trigger] list[i] is V4,
    ensures
        v4_addresses(list).map_values(|ip: Ipv4Addr| IpAddr::V4(ip)) == list,
        v4_addresses(list).len() == list.len(),
    decreases list.len(),
{
    if list.len() == 0 {
        assert(v4_addresses(list).map_values(|ip: Ipv4Addr| IpAddr::V4(ip)) =~= list);
    } else {
        let front = list.drop_last();
        assert(list[list.len() - 1] is V4);
        lemma_all_v4(front);
        assert(v4_addresses(list) == v4_addresses(front).push(list.last()->V4_0));
        assert(v4_addresses(list).map_values(|ip: Ipv4Addr| IpAddr::V4(ip)) =~= v4_addresses(
            front,
        ).map_values(|ip: Ipv4Addr| IpAddr::V4(ip)).push(list.last()));
        assert(front.push(list.last()) =~= list);
    }
}

/// A list of IPv4 name servers reads back from its text; no name servers read back as
/// none.
pub proof fn dns_text_reads_back(list: Seq<Ipv4Addr>)
    ensures
        dns_list(ips_text(list)) == Ok::<_, Seq<char>>(
            if list.len() == 0 {
                None
            } else {
                Some(list.map_values(|ip: Ipv4Addr| IpAddr::V4(ip)))
            },
        ),
{
    let p = any_of(separators());
    if list.len() == 0 {
        let s = ips_text(list);
        assert(s =~= Seq::<char>::empty());
        lemma_first_where_at(s, p, 0);
        assert(pieces(s, p) =~= seq![s]);
        assert(seq![s].skip(1) =~= Seq::<Seq<char>>::empty());
        reveal_with_fuel(items_of, 2);
    } else {
        lemma_list_reads_back(list);
        lemma_addresses_read_back(list);
        assert(list.map_values(|ip: Ipv4Addr| v4_text(ip)).len() == list.len());
    }
}

/// A configuration that is shown in the form and read from it again is the same, but for
/// the adapter, which the form does not hold, and a mask that is not set, which reads as
/// the usual one. This leaves out what the form cannot show: name servers that are not
/// IPv4, an empty list of them (which reads as none), and numbers that are zero or beyond
/// the form's range.
pub proof fn form_reads_back(c: ConfigView)
    requires
        c.dns_override matches Some(l) ==> l.len() > 0 && forall|i: int|
            0 <= i < l.len() ==> #[trigger] l[i] is V4,
        1 <= c.health_check_interval_secs <= 0x7fff_ffff,
        1 <= c.failure_threshold <= 0x7fff_ffff,
    ensures
        config_of(form_of(c)) == Ok::<_, Seq<char>>(
            ConfigView {
                adapter_id: Seq::empty(),
                subnet_mask: Some(
                    match c.subnet_mask {
                        Some(m) => m,
                        None => class_c_mask(),
                    },
                ),
                ..c
            },
        ),
{
    ip_text_reads_back(c.bypass_ip);
    match c.static_ip {
        Some(ip) => {
            lemma_v4_is_trimmed(ip);
            ipv4_text_reads_back(ip);
        },
        None => {},
    }
    let mask = match c.subnet_mask {
        Some(m) => m,
        None => class_c_mask(),
    };
    lemma_v4_is_trimmed(mask);
    ipv4_text_reads_back(mask);
    assert(DEFAULT_MASK@ =~= v4_text(class_c_mask())) by {
        reveal_strlit("255.255.255.0");
        reveal_with_fuel(dec, 4);
    }
    match c.dns_override {
        Some(l) => {
            lemma_all_v4(l);
            dns_text_reads_back(v4_addresses(l));
        },
        None => {
            dns_text_reads_back(Seq::empty());
            assert(ips_text(Seq::empty()) =~= Seq::<char>::empty());
        },
    }
}

} // verus!
