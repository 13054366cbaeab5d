//! The commands that configure an adapter through netsh, and what their answers mean.

use vstd::prelude::*;

use crate::addr::Ipv4Addr;
use crate::encoding::{bytes_text, decode_bytes};
use crate::error::{CoreError, ErrorView};
use crate::ip_text::{ipv4_text, v4_text};
use crate::text::{concat2, concat3, contains_text, has_text, texts_view, trim, trimmed};

verus! {

/// The name by which netsh knows an adapter.
#[derive(Debug)]
pub struct IfaceRef {
    pub name: String,
}

impl IfaceRef {
    /// The adapter with the name.
    pub fn new(name: String) -> (r: IfaceRef)
        ensures
            r.name@ == name@,
    {
        IfaceRef { name }
    }
}

/// A run of netsh.
#[derive(Debug)]
pub struct NetshCommand {
    pub args: Vec<String>,
    /// Whether being told that the state is reached already counts as success.
    pub idempotent: bool,
}

/// A run of netsh by its contents.
pub struct CommandView {
    pub args: Seq<Seq<char>>,
    pub idempotent: bool,
}

impl View for NetshCommand {
    type V = CommandView;

    open spec fn view(&self) -> CommandView {
        CommandView { args: texts_view(self.args@), idempotent: self.idempotent }
    }
}

/// Commands by their contents.
pub open spec fn commands_view(v: Seq<NetshCommand>) -> Seq<CommandView> {
    v.map_values(|c: NetshCommand| c@)
}

/// The command that lets the adapter get its address by DHCP.
pub open spec fn dhcp_command(iface: Seq<char>) -> CommandView {
    CommandView {
        args: seq!["interface"@, "ip"@, "set"@, "address"@, iface, "dhcp"@],
        idempotent: true,
    }
}

/// The command that gives the adapter a fixed address.
pub open spec fn static_command(
    iface: Seq<char>,
    ip: Ipv4Addr,
    mask: Ipv4Addr,
    gateway: Ipv4Addr,
) -> CommandView {
    CommandView {
        args: seq![
            "interface"@,
            "ip"@,
            "set"@,
            "address"@,
            iface,
            "static"@,
            v4_text(ip),
            v4_text(mask),
            v4_text(gateway),
        ],
        idempotent: false,
    }
}

/// The command that sets the first name server.
pub open spec fn first_dns_command(iface: Seq<char>, dns: Ipv4Addr) -> CommandView {
    CommandView {
        args: seq!["interface"@, "ip"@, "set"@, "dns"@, iface, "static"@, v4_text(dns)],
        idempotent: false,
    }
}

/// The command that adds a further name server.
pub open spec fn more_dns_command(iface: Seq<char>, dns: Ipv4Addr) -> CommandView {
    CommandView {
        args: seq!["interface"@, "ip"@, "add"@, "dns"@, iface, v4_text(dns), "index=2"@],
        idempotent: false,
    }
}

/// The commands that set the name servers: the first one, then the others in order.
pub open spec fn dns_commands(iface: Seq<char>, dns: Seq<Ipv4Addr>) -> Seq<CommandView> {
    Seq::new(
        dns.len(),
        |i: int|
            if i == 0 {
                first_dns_command(iface, dns[0])
            } else {
                more_dns_command(iface, dns[i])
            },
    )
}

/// The command that lets the adapter get its name servers by DHCP.
pub open spec fn dhcp_dns_command(iface: Seq<char>) -> CommandView {
    CommandView {
        args: seq!["interface"@, "ip"@, "set"@, "dns"@, iface, "dhcp"@],
        idempotent: true,
    }
}

fn push_arg(args: &mut Vec<String>, s: &str)
    ensures
        texts_view(final(args)@) == texts_view(old(args)@).push(s@),
{
    let ghost before = texts_view(args@);
    args.push(s.to_owned());
    assert(texts_view(args@) =~= before.push(s@));
}

fn ip_args(verb: &str, what: &str, iface: &str) -> (args: Vec<String>)
    ensures
        texts_view(args@) == seq!["interface"@, "ip"@, verb@, what@, iface@],
{
    let mut args: Vec<String> = Vec::new();
    assert(texts_view(args@) =~= Seq::<Seq<char>>::empty());
    push_arg(&mut args, "interface");
    push_arg(&mut args, "ip");
    push_arg(&mut args, verb);
    push_arg(&mut args, what);
    push_arg(&mut args, iface);
    assert(texts_view(args@) =~= seq!["interface"@, "ip"@, verb@, what@, iface@]);
    args
}

/// Lets the adapter get its address by DHCP.
pub fn enable_dhcp(iface: &str) -> (c: NetshCommand)
    ensures
        c@ == dhcp_command(iface@),
{
    let mut args = ip_args("set", "address", iface);
    push_arg(&mut args, "dhcp");
    assert(texts_view(args@) =~= dhcp_command(iface@).args);
    NetshCommand { args, idempotent: true }
}

/// Lets the adapter get its address by DHCP, unless it is known to do so already.
pub fn ensure_dhcp(iface: &str, dhcp_enabled: Option<bool>) -> (c: Option<NetshCommand>)
    ensures
        match c {
            Some(x) => dhcp_enabled != Some(true) && x@ == dhcp_command(iface@),
            None => dhcp_enabled == Some(true),
        },
{
    match dhcp_enabled {
        Some(true) => None,
        _ => Some(enable_dhcp(iface)),
    }
}

/// Gives the adapter a fixed address.
pub fn set_static_ipv4(iface: &str, ip: Ipv4Addr, mask: Ipv4Addr, gateway: Ipv4Addr) -> (c:
    NetshCommand)
    ensures
        c@ == static_command(iface@, ip, mask, gateway),
{
    let mut args = ip_args("set", "address", iface);
    push_arg(&mut args, "static");
    let ip_s = ipv4_text(ip);
    push_arg(&mut args, ip_s.as_str());
    let mask_s = ipv4_text(mask);
    push_arg(&mut args, mask_s.as_str());
    let gateway_s = ipv4_text(gateway);
    push_arg(&mut args, gateway_s.as_str());
    assert(texts_view(args@) =~= static_command(iface@, ip, mask, gateway).args);
    NetshCommand { args, idempotent: false }
}

/// Sets the name servers; nothing is to be done for none.
pub fn set_dns(iface: &str, dns: &Vec<Ipv4Addr>) -> (out: Vec<NetshCommand>)
    ensures
        commands_view(out@) == dns_commands(iface@, dns@),
{
    let mut out: Vec<NetshCommand> = Vec::new();
    let mut i: usize = 0;
    while i < dns.len()
        invariant
            i <= dns@.len(),
            out@.len() == i,
            forall|k: int| 0 <= k < i ==> #[trigger] out@[k]@ == dns_commands(iface@, dns@)[k],
        decreases dns@.len() - i,
    {
        let ip = ipv4_text(dns[i]);
        if i == 0 {
            let mut args = ip_args("set", "dns", iface);
            push_arg(&mut args, "static");
            push_arg(&mut args, ip.as_str());
            assert(texts_view(args@) =~= first_dns_command(iface@, dns@[0]).args);
            out.push(NetshCommand { args, idempotent: false });
        } else {
            let mut args = ip_args("add", "dns", iface);
            push_arg(&mut args, ip.as_str());
            push_arg(&mut args, "index=2");
            assert(texts_view(args@) =~= more_dns_command(iface@, dns@[i as int]).args);
            out.push(NetshCommand { args, idempotent: false });
        }
        i = i + 1;
    }
    assert(commands_view(out@) =~= dns_commands(iface@, dns@));
    out
}

/// Lets the adapter get its name servers by DHCP.
pub fn reset_dns(iface: &str) -> (c: NetshCommand)
    ensures
        c@ == dhcp_dns_command(iface@),
{
    let mut args = ip_args("set", "dns", iface);
    push_arg(&mut args, "dhcp");
    assert(texts_view(args@) =~= dhcp_dns_command(iface@).args);
    NetshCommand { args, idempotent: true }
}

// ---------------------------------------------------------------------------
// Answers
// ---------------------------------------------------------------------------

/// Whether netsh says that the state asked for is reached already.
pub open spec fn says_already_done(text: Seq<char>) -> bool {
    ||| contains_text(text, "已在此接口上启用 DHCP"@)
    ||| contains_text(text, "DHCP is already enabled"@)
    ||| contains_text(text, "已在此接口上启用"@)
    ||| contains_text(text, "The object is already in the state"@)
}

fn already_done(text: &str) -> (r: bool)
    ensures
        r == says_already_done(text@),
{
    has_text(text, "已在此接口上启用 DHCP") || has_text(text, "DHCP is already enabled")
        || has_text(text, "已在此接口上启用") || has_text(
        text,
        "The object is already in the state",
    )
}

/// What netsh wrote, on both of its outputs.
pub open spec fn output_text(stdout: Seq<char>, stderr: Seq<char>) -> Seq<char> {
    trimmed(trimmed(stdout) + " "@ + trimmed(stderr))
}

/// The result of a run, by whether it succeeded and what was written.
pub open spec fn netsh_result(idempotent: bool, success: bool, text: Seq<char>) -> Result<
    (),
    ErrorView,
> {
    if success || (idempotent && says_already_done(text)) {
        Ok(())
    } else {
        Err(ErrorView::Network("netsh 失败: "@ + text))
    }
}

/// Joins what netsh wrote on its two outputs.
pub fn join_output(stdout: &str, stderr: &str) -> (text: String)
    ensures
        text@ == output_text(stdout@, stderr@),
{
    let a = trim(stdout);
    let b = trim(stderr);
    let both = concat3(a.as_str(), " ", b.as_str());
    trim(both.as_str())
}

/// Decides whether a run was a success. Asking for a state that is reached already
/// is one where the command says so.
pub fn check_netsh(idempotent: bool, success: bool, text: &str) -> (r: Result<(), CoreError>)
    ensures
        match r {
            Ok(_) => netsh_result(idempotent, success, text@) is Ok,
            Err(e) => netsh_result(idempotent, success, text@) == Err::<(), ErrorView>(e@),
        },
{
    if success || (idempotent && already_done(text)) {
        Ok(())
    } else {
        Err(CoreError::Network(concat2("netsh 失败: ", text)))
    }
}

/// Decides whether a run was a success, by what it wrote, byte for byte.
pub fn run_netsh(idempotent: bool, success: bool, stdout: &Vec<u8>, stderr: &Vec<u8>) -> (r: Result<
    (),
    CoreError,
>)
    ensures
        ({
            let text = output_text(bytes_text(stdout@), bytes_text(stderr@));
            match r {
                Ok(_) => netsh_result(idempotent, success, text) is Ok,
                Err(e) => netsh_result(idempotent, success, text) == Err::<(), ErrorView>(e@),
            }
        }),
{
    let out = decode_bytes(stdout);
    let err = decode_bytes(stderr);
    let text = join_output(out.as_str(), err.as_str());
    check_netsh(idempotent, success, text.as_str())
}

/// The error of a run that could not even begin.
pub fn launch_error(cause: &str) -> (e: CoreError)
    ensures
        e@ == ErrorView::Network("无法启动 netsh: "@ + cause@),
{
    CoreError::Network(concat2("无法启动 netsh: ", cause))
}

/// A run that netsh itself calls a success is one, whatever it wrote; repeating a
/// request for DHCP that netsh answers with "already enabled" is harmless.
pub proof fn repeated_dhcp_request_succeeds(iface: Seq<char>, text: Seq<char>)
    requires
        says_already_done(text),
    ensures
        netsh_result(dhcp_command(iface).idempotent, false, text) is Ok,
        netsh_result(dhcp_dns_command(iface).idempotent, false, text) is Ok,
        netsh_result(dhcp_command(iface).idempotent, true, text) is Ok,
{
}

} // verus!
