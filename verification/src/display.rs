//! What the window shows of adapters and of the core's state.

use vstd::prelude::*;

use crate::adapter_reconfig::{only_v4, v4_addresses};
use crate::adapters::position_of;
use crate::addr::{from_value, mask_of_prefix, mask_value, IpAddr};
use crate::forms::{form_number, ips_text, join_ips, to_form_number};
use crate::ip_text::{ipv4_text, v4_text};
use crate::number::{dec, dec_text, second_in_day};
use crate::protocol::{
    adapters_view, find_adapter, AdapterInfo, AdapterView, HealthStatus, Timestamp,
};
use crate::text::{concat2, concat3, texts_view};
use crate::tray::TrayState;

verus! {

// ---------------------------------------------------------------------------
// Adapters
// ---------------------------------------------------------------------------

/// The first two IPv4 addresses of a list.
pub open spec fn brief_ips(ips: Seq<IpAddr>) -> Seq<char> {
    let v4 = v4_addresses(ips);
    ips_text(
        if v4.len() > 2 {
            v4.take(2)
        } else {
            v4
        },
    )
}

/// Writes the first two IPv4 addresses of a list.
pub fn format_ips(ips: &Vec<IpAddr>) -> (out: String)
    ensures
        out@ == brief_ips(ips@),
{
    let v4 = only_v4(ips);
    let n: usize = if v4.len() > 2 {
        2
    } else {
        v4.len()
    };
    assert(v4@.take(v4@.len() as int) =~= v4@);
    join_ips(&v4, n)
}

/// The name of an adapter in the list: one that is not connected is marked.
pub open spec fn display_name(a: AdapterView) -> Seq<char> {
    if a.is_connected {
        a.name
    } else {
        a.name + "（未连接）"@
    }
}

/// The names of the adapters in the list.
pub fn adapter_display_names(list: &Vec<AdapterInfo>) -> (out: Vec<String>)
    ensures
        texts_view(out@) == list@.map_values(|a: AdapterInfo| display_name(a@)),
{
    let mut out: Vec<String> = Vec::new();
    let mut i: usize = 0;
    while i < list.len()
        invariant
            i <= list@.len(),
            out@.len() == i,
            forall|k: int| 0 <= k < i ==> #[trigger] out@[k]@ == display_name(list@[k]@),
        decreases list@.len() - i,
    {
        if list[i].is_connected {
            out.push(list[i].name.clone());
        } else {
            out.push(concat2(list[i].name.as_str(), "（未连接）"));
        }
        i = i + 1;
    }
    assert(texts_view(out@) =~= list@.map_values(|a: AdapterInfo| display_name(a@)));
    out
}

/// Where the selected adapter stands in the list; minus one if it is not there.
pub fn selected_index(list: &Vec<AdapterInfo>, id: &str) -> (index: i32)
    requires
        list@.len() <= 0x7fff_ffff,
    ensures
        match find_adapter(adapters_view(list@), id@) {
            Some(a) => 0 <= index < list@.len() && list@[index as int]@ == a && forall|k: int|
                0 <= k < index ==> (#[trigger] list@[k]).id@ != id@,
            None => index == -1,
        },
{
    match position_of(list, id) {
        Some(i) => i as i32,
        None => -1,
    }
}

/// What the window shows of the selected adapter.
#[derive(Debug)]
pub struct AdapterDisplay {
    pub ip: String,
    pub mask: String,
    pub gateway: String,
    pub dns: String,
}

/// What the window shows of the selected adapter, by its contents.
pub struct DisplayView {
    pub ip: Seq<char>,
    pub mask: Seq<char>,
    pub gateway: Seq<char>,
    pub dns: Seq<char>,
}

impl View for AdapterDisplay {
    type V = DisplayView;

    open spec fn view(&self) -> DisplayView {
        DisplayView {
            ip: self.ip@,
            mask: self.mask@,
            gateway: self.gateway@,
            dns: self.dns@,
        }
    }
}

/// Addresses, or dashes for none.
pub open spec fn ips_or_dashes(ips: Seq<IpAddr>) -> Seq<char> {
    if ips.len() == 0 {
        "--"@
    } else {
        brief_ips(ips)
    }
}

/// The mask of the first network, or dashes where there is none. No network has a prefix
/// longer than an address.
pub open spec fn mask_or_dashes(prefixes: Seq<u8>) -> Seq<char> {
    if prefixes.len() == 0 || prefixes[0] > 32 {
        "--"@
    } else {
        v4_text(from_value(mask_value(prefixes[0] as nat)))
    }
}

/// What the window shows for a selection.
pub open spec fn shown_adapter(list: Seq<AdapterView>, id: Seq<char>) -> DisplayView {
    match find_adapter(list, id) {
        Some(a) => DisplayView {
            ip: ips_or_dashes(a.ipv4),
            mask: mask_or_dashes(a.ipv4_prefixes),
            gateway: ips_or_dashes(a.gateway),
            dns: ips_or_dashes(a.dns),
        },
        None => DisplayView { ip: "--"@, mask: "--"@, gateway: "--"@, dns: "--"@ },
    }
}

fn show_ips(ips: &Vec<IpAddr>) -> (out: String)
    ensures
        out@ == ips_or_dashes(ips@),
{
    if ips.len() == 0 {
        "--".to_owned()
    } else {
        format_ips(ips)
    }
}

fn show_mask(prefixes: &Vec<u8>) -> (out: String)
    ensures
        out@ == mask_or_dashes(prefixes@),
{
    if prefixes.len() == 0 || prefixes[0] > 32 {
        return "--".to_owned();
    }
    let mask = mask_of_prefix(prefixes[0]);
    ipv4_text(mask)
}

/// What the window shows of the selected adapter; dashes where there is nothing.
pub fn update_adapter_info_display(list: &Vec<AdapterInfo>, id: &str) -> (d: AdapterDisplay)
    ensures
        d@ == shown_adapter(adapters_view(list@), id@),
{
    match position_of(list, id) {
        Some(i) => {
            let a = &list[i];
            AdapterDisplay {
                ip: show_ips(&a.ipv4),
                mask: show_mask(&a.ipv4_prefixes),
                gateway: show_ips(&a.gateway),
                dns: show_ips(&a.dns),
            }
        },
        None => AdapterDisplay {
            ip: "--".to_owned(),
            mask: "--".to_owned(),
            gateway: "--".to_owned(),
            dns: "--".to_owned(),
        },
    }
}

// ---------------------------------------------------------------------------
// The core's state
// ---------------------------------------------------------------------------

/// The text for a state of health.
pub open spec fn health_text(h: HealthStatus) -> Seq<char> {
    match h {
        HealthStatus::Idle => "直连（未启用）"@,
        HealthStatus::Healthy => "旁路由生效"@,
        HealthStatus::Degraded { consecutive_failures } => "探测中（失败 "@ + dec(
            consecutive_failures as nat,
        ) + " 次）"@,
        HealthStatus::Fallback => "异常已自动回退"@,
        HealthStatus::Recovered => "检测恢复"@,
    }
}

/// The color of the tray icon for a state of health.
pub open spec fn health_color(h: HealthStatus) -> TrayState {
    match h {
        HealthStatus::Healthy => TrayState::Bypass,
        HealthStatus::Degraded { consecutive_failures } => TrayState::Bypass,
        HealthStatus::Fallback => TrayState::Fallback,
        _ => TrayState::Direct,
    }
}

/// What the window and the tray show for a state of health.
#[derive(Debug)]
pub struct HealthDisplay {
    pub text: String,
    pub tray: TrayState,
    pub is_fallback: bool,
}

/// What the window and the tray show for a state of health.
pub fn show_health(h: HealthStatus) -> (d: HealthDisplay)
    ensures
        d.text@ == health_text(h),
        d.tray == health_color(h),
        d.is_fallback == (h == HealthStatus::Fallback),
{
    match h {
        HealthStatus::Idle => HealthDisplay {
            text: "直连（未启用）".to_owned(),
            tray: TrayState::Direct,
            is_fallback: false,
        },
        HealthStatus::Healthy => HealthDisplay {
            text: "旁路由生效".to_owned(),
            tray: TrayState::Bypass,
            is_fallback: false,
        },
        HealthStatus::Degraded { consecutive_failures } => {
            let n = dec_text(consecutive_failures as u64);
            HealthDisplay {
                text: concat3("探测中（失败 ", n.as_str(), " 次）"),
                tray: TrayState::Bypass,
                is_fallback: false,
            }
        },
        HealthStatus::Fallback => HealthDisplay {
            text: "异常已自动回退".to_owned(),
            tray: TrayState::Fallback,
            is_fallback: true,
        },
        HealthStatus::Recovered => HealthDisplay {
            text: "检测恢复".to_owned(),
            tray: TrayState::Direct,
            is_fallback: false,
        },
    }
}

/// The round trip that the window shows: minus one where it is not known. The state of the
/// core holds none.
pub fn show_latency(latency_ms: Option<u32>) -> (ms: i32)
    ensures
        ms == match latency_ms {
            Some(n) => form_number(n),
            None => -1i32,
        },
{
    match latency_ms {
        Some(n) => to_form_number(n),
        None => -1,
    }
}

/// The second of the day that a moment lies in.
pub open spec fn second_of_day(t: Timestamp) -> int {
    t.secs as int % 86_400
}

/// The leap second to count between two moments. A moment within a leap second has a
/// second or more of nanoseconds; the leap second counts where the other moment is later
/// in the day.
pub open spec fn leap_between(from: Timestamp, to: Timestamp) -> int {
    if second_of_day(from) < second_of_day(to) && from.nanos >= 1_000_000_000 {
        1
    } else if second_of_day(to) < second_of_day(from) && to.nanos >= 1_000_000_000 {
        -1
    } else {
        0
    }
}

/// The time between two moments, in nanoseconds.
pub open spec fn nanos_between(from: Timestamp, to: Timestamp) -> int {
    (to.secs - from.secs + leap_between(from, to)) * 1_000_000_000 + (to.nanos - from.nanos)
}

/// The whole seconds between two moments, towards zero.
pub open spec fn seconds_between(from: Timestamp, to: Timestamp) -> int {
    let d = nanos_between(from, to);
    if d >= 0 {
        d / 1_000_000_000
    } else {
        -((-d) / 1_000_000_000)
    }
}

/// How long ago the state changed.
pub open spec fn age_text(last: Timestamp, now: Timestamp) -> Seq<char> {
    if last.secs <= 0 {
        "--"@
    } else if seconds_between(last, now) < 60 {
        "刚刚"@
    } else {
        dec((seconds_between(last, now) / 60) as nat) + "分钟前"@
    }
}

/// How long ago the state changed, in words.
pub fn last_check_text(last: Timestamp, now: Timestamp) -> (out: String)
    ensures
        out@ == age_text(last, now),
{
    if last.secs <= 0 {
        return "--".to_owned();
    }
    let from: u32 = second_in_day(last.secs as i128);
    let to: u32 = second_in_day(now.secs as i128);
    let leap: i128 = if from < to && last.nanos >= 1_000_000_000 {
        1
    } else if to < from && now.nanos >= 1_000_000_000 {
        -1
    } else {
        0
    };
    let nanos: i128 = (now.secs as i128 - last.secs as i128 + leap) * 1_000_000_000 + (
    now.nanos as i128 - last.nanos as i128);
    assert(nanos == nanos_between(last, now));
    if nanos < 60_000_000_000 {
        return "刚刚".to_owned();
    }
    let secs: u128 = nanos as u128 / 1_000_000_000;
    let minutes = dec_text((secs / 60) as u64);
    concat2(minutes.as_str(), "分钟前")
}

/// Whether a look announces a fallback: the bypass has just been given up, and
/// notifications are wanted.
pub open spec fn announces(was_fallback: bool, is_fallback: bool, wanted: bool) -> bool {
    is_fallback && !was_fallback && wanted
}

/// Watches for the bypass being given up.
#[derive(Debug, Clone, Copy, PartialEq, Eq, Structural)]
pub struct FallbackWatch {
    /// Whether the bypass was given up when it was looked at last.
    pub was_fallback: bool,
}

impl FallbackWatch {
    /// A watch that has seen nothing yet.
    pub fn new() -> (w: FallbackWatch)
        ensures
            !w.was_fallback,
    {
        FallbackWatch { was_fallback: false }
    }

    /// Takes a look. Tells whether the user is to be told: when the bypass has just been
    /// given up, not while it stays so, and only if notifications are wanted.
    pub fn observe(&mut self, is_fallback: bool, wanted: bool) -> (notify: bool)
        ensures
            notify == announces(old(self).was_fallback, is_fallback, wanted),
            final(self).was_fallback == is_fallback,
    {
        let notify = is_fallback && !self.was_fallback && wanted;
        self.was_fallback = is_fallback;
        notify
    }
}

/// How often a user is told in a run of looks, each with whether notifications are
/// wanted, after the last look found the given state.
pub open spec fn notifications(was_fallback: bool, looks: Seq<(bool, bool)>) -> nat
    decreases looks.len(),
{
    if looks.len() == 0 {
        0
    } else {
        let (is_fallback, wanted) = looks.last();
        let before = if looks.len() == 1 {
            was_fallback
        } else {
            looks[looks.len() - 2].0
        };
        notifications(was_fallback, looks.drop_last()) + if announces(before, is_fallback, wanted) {
            1nat
        } else {
            0
        }
    }
}

/// However often the window looks while the bypass stays given up, a user who wants to
/// be told is told once.
pub proof fn fallback_is_announced_once(looks: Seq<(bool, bool)>)
    requires
        looks.len() > 0,
        forall|i: int| 0 <= i < looks.len() ==> #[trigger] looks[i] == (true, true),
    ensures
        notifications(false, looks) == 1,
    decreases looks.len(),
{
    let front = looks.drop_last();
    assert(looks.last() == looks[looks.len() - 1]);
    if front.len() > 0 {
        assert forall|i: int| 0 <= i < front.len() implies #[trigger] front[i] == (true, true) by {
            assert(front[i] == looks[i]);
        }
        fallback_is_announced_once(front);
        assert(looks[looks.len() - 2] == (true, true));
    } else {
        assert(notifications(false, front) == 0);
    }
}

} // verus!
