//! What the server works on.

use vstd::prelude::*;

use crate::controller::Controller;

verus! {

/// What the server works on.
#[derive(Debug)]
pub struct ServerState {
    pub controller: Controller,
}

impl ServerState {
    /// A server for the controller.
    pub fn new(controller: Controller) -> (s: ServerState)
        ensures
            s.controller@ == controller@,
    {
        ServerState { controller }
    }
}

} // verus!
