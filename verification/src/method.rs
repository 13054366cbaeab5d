//! The names of the remote procedures.

use vstd::prelude::*;

verus! {

pub const GET_STATUS: &'static str = "GetStatus";

pub const GET_CONFIG: &'static str = "GetConfig";

pub const UPDATE_CONFIG: &'static str = "UpdateConfig";

pub const ENABLE_BYPASS: &'static str = "EnableBypass";

pub const DISABLE_BYPASS: &'static str = "DisableBypass";

pub const TEST_CONNECTIVITY: &'static str = "TestConnectivity";

pub const LIST_ADAPTERS: &'static str = "ListAdapters";

pub const SUBSCRIBE_EVENTS: &'static str = "SubscribeEvents";

pub const EVENT_PUSH: &'static str = "EventPush";

} // verus!
