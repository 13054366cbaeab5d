//! Probing and listing, with the errors that clients see.

use vstd::prelude::*;

use crate::addr::{IpAddr, Ipv4Addr};
use crate::error::{CoreError, ErrorView};
use crate::text::concat2;

verus! {

/// The inspector of this system's network.
#[derive(Debug, Clone, Copy, PartialEq, Eq, Structural)]
pub struct WinNetInspector;

/// A public address that is reachable from almost everywhere.
pub fn default_probe_ip() -> (ip: IpAddr)
    ensures
        ip == IpAddr::V4(Ipv4Addr { a: 223, b: 5, c: 5, d: 5 }),
{
    IpAddr::V4(Ipv4Addr { a: 223, b: 5, c: 5, d: 5 })
}

/// The error of a list of adapters that cannot be had.
pub fn enumeration_error(cause: &str) -> (e: CoreError)
    ensures
        e@ == ErrorView::Network("枚举网卡失败: "@ + cause@),
{
    CoreError::Network(concat2("枚举网卡失败: ", cause))
}

/// The error of a route table that cannot be read.
pub fn route_state_error(cause: &str) -> (e: CoreError)
    ensures
        e@ == ErrorView::Network("读取路由状态失败: "@ + cause@),
{
    CoreError::Network(concat2("读取路由状态失败: ", cause))
}

/// The error of background work that did not finish.
pub fn task_error(cause: &str) -> (e: CoreError)
    ensures
        e@ == ErrorView::Other("任务失败: "@ + cause@),
{
    CoreError::Other(concat2("任务失败: ", cause))
}

impl WinNetInspector {
    /// The address to send a probe to; only IPv4 can be probed.
    pub fn ping_target(&self, ip: IpAddr) -> (r: Result<Ipv4Addr, CoreError>)
        ensures
            match ip {
                IpAddr::V4(v4) => r matches Ok(x) && x == v4,
                IpAddr::V6(_) => r matches Err(e) && e@ == ErrorView::Network("MVP 不支持 IPv6"@),
            },
    {
        match ip {
            IpAddr::V4(v4) => Ok(v4),
            IpAddr::V6(_) => Err(CoreError::Network("MVP 不支持 IPv6".to_owned())),
        }
    }
}

/// The round trip of a probe: there has to be a reply, and it has to report success. A
/// reply alone is not enough, because a timeout is reported in one, too.
pub fn echo_result(replies: u32, status: u32, round_trip_ms: u32) -> (r: Option<u32>)
    ensures
        r == if replies != 0 && status == 0 {
            Some(round_trip_ms)
        } else {
            None
        },
{
    if replies != 0 && status == 0 {
        Some(round_trip_ms)
    } else {
        None
    }
}

} // verus!
