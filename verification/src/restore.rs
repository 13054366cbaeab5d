//! Undoing adapter reconfiguration: the adapter gets back what the backup holds.

use vstd::prelude::*;

use crate::adapter_reconfig::{restore_commands, AdapterReconfigStrategy};
use crate::error::{CoreError, ErrorView};
use crate::netsh::{commands_view, CommandView, NetshCommand};
use crate::protocol::{adapters_view, AdapterInfo, AdapterSnapshot, AdapterView, SnapshotView};

verus! {

/// What restoring waits for.
#[derive(Debug)]
pub enum RestorePhase {
    /// The backup being read.
    Loading,
    /// The adapters being listed.
    Listing(AdapterSnapshot),
    /// The commands being run.
    Running,
    /// The backup being removed.
    Clearing,
    /// There is nothing more to do.
    Finished,
}

/// A phase by its contents.
pub enum RestorePhaseView {
    Loading,
    Listing(SnapshotView),
    Running,
    Clearing,
    Finished,
}

impl View for RestorePhase {
    type V = RestorePhaseView;

    open spec fn view(&self) -> RestorePhaseView {
        match *self {
            RestorePhase::Loading => RestorePhaseView::Loading,
            RestorePhase::Listing(s) => RestorePhaseView::Listing(s@),
            RestorePhase::Running => RestorePhaseView::Running,
            RestorePhase::Clearing => RestorePhaseView::Clearing,
            RestorePhase::Finished => RestorePhaseView::Finished,
        }
    }
}

/// What the host answers.
#[derive(Debug)]
pub enum RestoreReply {
    /// The backup, if there is one.
    Snapshot(Result<Option<AdapterSnapshot>, CoreError>),
    /// The adapters, or why they cannot be listed.
    Adapters(Result<Vec<AdapterInfo>, String>),
    /// The action was performed, or not.
    Done(Result<(), CoreError>),
}

/// An answer by its contents.
pub enum RestoreReplyView {
    Snapshot(Result<Option<SnapshotView>, ErrorView>),
    Adapters(Result<Seq<AdapterView>, Seq<char>>),
    Done(Result<(), ErrorView>),
}

impl View for RestoreReply {
    type V = RestoreReplyView;

    open spec fn view(&self) -> RestoreReplyView {
        match *self {
            RestoreReply::Snapshot(r) => RestoreReplyView::Snapshot(
                match r {
                    Ok(Some(s)) => Ok(Some(s@)),
                    Ok(None) => Ok(None),
                    Err(e) => Err(e@),
                },
            ),
            RestoreReply::Adapters(r) => RestoreReplyView::Adapters(
                match r {
                    Ok(l) => Ok(adapters_view(l@)),
                    Err(s) => Err(s@),
                },
            ),
            RestoreReply::Done(r) => RestoreReplyView::Done(
                match r {
                    Ok(_) => Ok(()),
                    Err(e) => Err(e@),
                },
            ),
        }
    }
}

/// What the host has to do.
#[derive(Debug)]
pub enum RestoreAction {
    /// Read the backup.
    LoadSnapshot,
    /// List the adapters.
    ListAdapters,
    /// Run the commands, in order, up to the first that fails.
    Run(Vec<NetshCommand>),
    /// Remove the backup.
    ClearSnapshot,
    /// Restoring is over.
    Finish(Result<(), CoreError>),
}

/// An action by its contents.
pub enum RestoreActionView {
    LoadSnapshot,
    ListAdapters,
    Run(Seq<CommandView>),
    ClearSnapshot,
    Finish(Result<(), ErrorView>),
}

impl View for RestoreAction {
    type V = RestoreActionView;

    open spec fn view(&self) -> RestoreActionView {
        match *self {
            RestoreAction::LoadSnapshot => RestoreActionView::LoadSnapshot,
            RestoreAction::ListAdapters => RestoreActionView::ListAdapters,
            RestoreAction::Run(c) => RestoreActionView::Run(commands_view(c@)),
            RestoreAction::ClearSnapshot => RestoreActionView::ClearSnapshot,
            RestoreAction::Finish(r) => RestoreActionView::Finish(
                match r {
                    Ok(_) => Ok(()),
                    Err(e) => Err(e@),
                },
            ),
        }
    }
}

/// What follows an answer: the next phase and the next action. An adapter that cannot be
/// restored is left as it is; the backup goes either way. Without a backup there is
/// nothing to do.
pub open spec fn restored(phase: RestorePhaseView, reply: RestoreReplyView) -> (
    RestorePhaseView,
    Option<RestoreActionView>,
) {
    match (phase, reply) {
        (RestorePhaseView::Loading, RestoreReplyView::Snapshot(r)) => match r {
            Ok(Some(s)) => (RestorePhaseView::Listing(s), Some(RestoreActionView::ListAdapters)),
            Ok(None) => (RestorePhaseView::Finished, Some(RestoreActionView::Finish(Ok(())))),
            Err(e) => (RestorePhaseView::Finished, Some(RestoreActionView::Finish(Err(e)))),
        },
        (RestorePhaseView::Listing(s), RestoreReplyView::Adapters(r)) => match r {
            Ok(list) => match restore_commands(s, list) {
                Ok(commands) => (RestorePhaseView::Running, Some(RestoreActionView::Run(commands))),
                Err(_) => (RestorePhaseView::Clearing, Some(RestoreActionView::ClearSnapshot)),
            },
            Err(_) => (RestorePhaseView::Clearing, Some(RestoreActionView::ClearSnapshot)),
        },
        (RestorePhaseView::Running, RestoreReplyView::Done(_)) => (
            RestorePhaseView::Clearing,
            Some(RestoreActionView::ClearSnapshot),
        ),
        (RestorePhaseView::Clearing, RestoreReplyView::Done(r)) => (
            RestorePhaseView::Finished,
            Some(RestoreActionView::Finish(r)),
        ),
        _ => (phase, None),
    }
}

/// An optional action by its contents.
pub open spec fn restore_action_view(a: Option<RestoreAction>) -> Option<RestoreActionView> {
    match a {
        Some(x) => Some(x@),
        None => None,
    }
}

/// Restoring an adapter.
#[derive(Debug)]
pub struct Restore {
    pub phase: RestorePhase,
}

impl Restore {
    /// Begins to restore: the backup is read.
    pub fn start() -> (r: (Restore, RestoreAction))
        ensures
            r.0.phase@ is Loading,
            r.1@ == RestoreActionView::LoadSnapshot,
    {
        (Restore { phase: RestorePhase::Loading }, RestoreAction::LoadSnapshot)
    }

    /// Takes an answer in and says what to do next; an answer that does not suit is
    /// ignored.
    pub fn step(&mut self, reply: RestoreReply) -> (action: Option<RestoreAction>)
        ensures
            (final(self).phase@, restore_action_view(action)) == restored(old(self).phase@, reply@),
    {
        let mut phase = RestorePhase::Finished;
        std::mem::swap(&mut phase, &mut self.phase);
        match (phase, reply) {
            (RestorePhase::Loading, RestoreReply::Snapshot(r)) => match r {
                Ok(Some(s)) => {
                    self.phase = RestorePhase::Listing(s);
                    Some(RestoreAction::ListAdapters)
                },
                Ok(None) => Some(RestoreAction::Finish(Ok(()))),
                Err(e) => Some(RestoreAction::Finish(Err(e))),
            },
            (RestorePhase::Listing(s), RestoreReply::Adapters(r)) => {
                match r {
                    Ok(list) => match AdapterReconfigStrategy::new().restore_adapter(&s, &list) {
                        Ok(commands) => {
                            self.phase = RestorePhase::Running;
                            return Some(RestoreAction::Run(commands));
                        },
                        Err(_) => {},
                    },
                    Err(_) => {},
                }
                self.phase = RestorePhase::Clearing;
                Some(RestoreAction::ClearSnapshot)
            },
            (RestorePhase::Running, RestoreReply::Done(_)) => {
                self.phase = RestorePhase::Clearing;
                Some(RestoreAction::ClearSnapshot)
            },
            (RestorePhase::Clearing, RestoreReply::Done(r)) => Some(RestoreAction::Finish(r)),
            (waiting, _) => {
                self.phase = waiting;
                None
            },
        }
    }
}

/// The backup is removed only after the adapter was given back what it holds, or after
/// that proved impossible.
pub proof fn backup_goes_last(phase: RestorePhaseView, reply: RestoreReplyView)
    requires
        restored(phase, reply).1 == Some(RestoreActionView::ClearSnapshot),
    ensures
        match phase {
            RestorePhaseView::Running => true,
            RestorePhaseView::Listing(s) => reply matches RestoreReplyView::Adapters(r) && (
            r matches Ok(list) ==> restore_commands(s, list) is Err),
            _ => false,
        },
{
}

} // verus!
