//! The client's side of the protocol.

use vstd::prelude::*;

use crate::addr::IpAddr;
use crate::autostart::truth_of;
use crate::ip_text::{ip_text, ip_text_reads_back, ip_to_text};
use crate::ipc_server::ip_param;
use crate::json::{json_quoted, write_json_string};
use crate::method;
use crate::number::{dec_int, dec_int_text};
use crate::protocol::{OutcomeView, RpcOutcome, RpcRequest};
use crate::text::{concat4, same_text};

verus! {

/// A client: it numbers its calls.
#[derive(Debug, Clone, Copy, PartialEq, Eq, Structural)]
pub struct IpcClient {
    pub next_id: u64,
}

/// What a caller gets for an outcome: the result as JSON text, or a message.
pub open spec fn received(o: OutcomeView) -> Result<Seq<char>, Seq<char>> {
    match o {
        OutcomeView::Success { result } => Ok(result),
        OutcomeView::Failure { code, message, data } => Err(
            message + " (code "@ + dec_int(code as int) + ")"@,
        ),
    }
}

impl IpcClient {
    /// A client that has just connected.
    pub fn new() -> (c: IpcClient)
        ensures
            c.next_id == 1,
    {
        IpcClient { next_id: 1 }
    }

    /// The next call of a method, with its parameters as JSON text.
    pub fn request(&mut self, name: &str, params: String) -> (req: RpcRequest)
        requires
            old(self).next_id < u64::MAX,
        ensures
            req.jsonrpc@ == "2.0"@,
            req.id == old(self).next_id,
            req.method@ == name@,
            req.params@ == params@,
            final(self).next_id == old(self).next_id + 1,
    {
        let id = self.next_id;
        self.next_id = id + 1;
        RpcRequest { jsonrpc: "2.0".to_owned(), id, method: name.to_owned(), params }
    }

    /// A call without parameters.
    pub fn plain_request(&mut self, name: &str) -> (req: RpcRequest)
        requires
            old(self).next_id < u64::MAX,
        ensures
            req.jsonrpc@ == "2.0"@,
            req.id == old(self).next_id,
            req.method@ == name@,
            req.params@ == "null"@,
            final(self).next_id == old(self).next_id + 1,
    {
        self.request(name, "null".to_owned())
    }

    /// The call that asks whether an address can be reached. The server reads that
    /// address from its parameters.
    pub fn test_connectivity(&mut self, ip: IpAddr) -> (req: RpcRequest)
        requires
            old(self).next_id < u64::MAX,
        ensures
            req.jsonrpc@ == "2.0"@,
            req.id == old(self).next_id,
            req.method@ == method::TEST_CONNECTIVITY@,
            req.params@ == json_quoted(ip_text(ip)),
            ip_param(req.params@) == Some(ip),
            final(self).next_id == old(self).next_id + 1,
    {
        proof {
            ip_text_reads_back(ip);
        }
        let text = ip_to_text(ip);
        let params = write_json_string(text.as_str());
        self.request(method::TEST_CONNECTIVITY, params)
    }
}

/// What a caller gets for the answer: the line that was read, and what it was read as.
/// An empty line means that the server has gone.
pub fn receive(line: &str, outcome: Result<RpcOutcome, String>) -> (r: Result<String, String>)
    ensures
        line@.len() == 0 ==> (r matches Err(e) && e@ == "连接已关闭"@),
        line@.len() > 0 ==> match outcome {
            Err(s) => r matches Err(e) && e@ == s@,
            Ok(o) => match received(o@) {
                Ok(json) => r matches Ok(s) && s@ == json,
                Err(m) => r matches Err(e) && e@ == m,
            },
        },
{
    let empty = same_text(line, "");
    proof {
        reveal_strlit("");
        if line@.len() == 0 {
            assert(line@ =~= ""@);
        }
    }
    if empty {
        return Err("连接已关闭".to_owned());
    }
    match outcome {
        Err(s) => Err(s),
        Ok(o) => match o {
            RpcOutcome::Success { result } => Ok(result),
            RpcOutcome::Failure { error } => {
                let code = dec_int_text(error.code as i64);
                Err(concat4(error.message.as_str(), " (code ", code.as_str(), ")"))
            },
        },
    }
}

/// Whether the address can be reached, by the result as JSON text; nothing where that is
/// no truth value.
pub fn connectivity_answer(json: &str) -> (r: Option<bool>)
    ensures
        r == truth_of(Some(json@)),
{
    if same_text(json, "true") {
        Some(true)
    } else if same_text(json, "false") {
        Some(false)
    } else {
        None
    }
}

} // verus!
