//! Reading a part of a block: from the memory map of a local worker where that can be done,
//! and from a worker otherwise.

use crate::error::Error;
use crate::io::failover::{Action, Caller, Event, WorkerAccess};
use crate::io::short_circuit::{Decision, LocalAction, LocalEvent, LocalRead};
use crate::metrics::registry::{wrapping_sum, Registry};
use bytes::Bytes;
use vstd::prelude::*;

verus! {

/// How far the read has come.
#[derive(Debug)]
pub enum BlockRead {
    /// The local worker is being tried.
    Local(LocalRead),
    /// A worker is being asked.
    Remote(WorkerAccess),
}

/// What is to be done next.
#[derive(Debug)]
pub enum BlockAction {
    /// Something with the local worker.
    Local(LocalAction),
    /// Something with a worker. What was opened locally is closed first where
    /// `close_local` says so.
    Remote {
        /// Whether the block that was opened locally is of no more use.
        close_local: bool,
        /// What to do.
        action: Action,
    },
}

/// What came of an action.
#[derive(Debug)]
pub enum BlockEvent {
    /// From the local worker.
    Local(LocalEvent),
    /// From a worker.
    Remote(Event),
}

impl BlockRead {
    /// Whether `event` is what can come of the action that was asked for last.
    pub open spec fn awaits(self, event: BlockEvent) -> bool {
        match (self, event) {
            (BlockRead::Local(state), BlockEvent::Local(e)) => state.awaits(e),
            (BlockRead::Remote(state), BlockEvent::Remote(e)) => state.awaits(e),
            _ => false,
        }
    }

    /// What follows where the local worker goes on with `next` and `action`: where it
    /// falls back, a worker is selected.
    pub open spec fn after_local(
        next: LocalRead,
        action: LocalAction,
        r: (BlockRead, BlockAction),
    ) -> bool {
        match action {
            LocalAction::FallBack { close } => {
                &&& r.0 matches BlockRead::Remote(state)
                &&& state is Selecting
                &&& r.1 matches BlockAction::Remote { close_local, action }
                &&& close_local == close
                &&& action is Select
            },
            _ => r.0 == BlockRead::Local(next) && r.1 == BlockAction::Local(action),
        }
    }

    /// Whether `r` is what follows `event`.
    pub open spec fn follows(
        self,
        caller: Caller,
        block_id: i64,
        event: BlockEvent,
        r: (BlockRead, BlockAction),
    ) -> bool {
        match (self, event) {
            (BlockRead::Local(state), BlockEvent::Local(e)) => exists|
                next: LocalRead,
                action: LocalAction,
            | #[trigger]
                LocalRead::follows(block_id, e, next, action) && BlockRead::after_local(
                    next,
                    action,
                    r,
                ),
            (BlockRead::Remote(state), BlockEvent::Remote(e)) => {
                &&& r.0 matches BlockRead::Remote(next)
                &&& r.1 matches BlockAction::Remote { close_local, action }
                &&& !close_local
                &&& state.follows(caller, e, next, action)
            },
            _ => false,
        }
    }

    /// The decision on the local read that `event` leads to.
    pub open spec fn decision(event: BlockEvent) -> Option<Decision> {
        match event {
            BlockEvent::Local(e) => LocalRead::decision(e),
            BlockEvent::Remote(_) => None,
        }
    }

    fn go_on(next: LocalRead, action: LocalAction) -> (r: (BlockRead, BlockAction))
        ensures
            BlockRead::after_local(next, action, r),
    {
        match action {
            LocalAction::FallBack { close } => {
                let (state, select) = WorkerAccess::start();
                (
                    BlockRead::Remote(state),
                    BlockAction::Remote { close_local: close, action: select },
                )
            },
            other => (BlockRead::Local(next), BlockAction::Local(other)),
        }
    }

    /// Starts a read. `available` tells whether blocks can be read locally at all.
    pub fn start(available: bool, registry: &mut Registry) -> (r: (BlockRead, BlockAction))
        requires
            old(registry).wf(),
        ensures
            final(registry).wf(),
            forall|k: Seq<char>| #[trigger] final(registry).gauged(k) == old(registry).gauged(k),
            available ==> {
                &&& r.0 == BlockRead::Local(LocalRead::Asking)
                &&& r.1 matches BlockAction::Local(action)
                &&& action is Ask
                &&& *final(registry) == *old(registry)
            },
            !available ==> {
                &&& BlockRead::after_local(
                    LocalRead::Finished,
                    LocalAction::FallBack { close: false },
                    r,
                )
                &&& final(registry).counted(Decision::Skipped.metric()) == wrapping_sum(
                    old(registry).counted(Decision::Skipped.metric()),
                    1,
                )
                &&& forall|k: Seq<char>|
                    k != Decision::Skipped.metric() ==> #[trigger] final(registry).counted(k)
                        == old(registry).counted(k)
            },
    {
        let (next, action) = LocalRead::start(available, registry);
        BlockRead::go_on(next, action)
    }

    /// What to do after `event`. A decision on the local read is counted when it is made.
    pub fn step(
        self,
        caller: Caller,
        block_id: i64,
        event: BlockEvent,
        registry: &mut Registry,
    ) -> (r: (BlockRead, BlockAction))
        requires
            self.awaits(event),
            old(registry).wf(),
        ensures
            final(registry).wf(),
            forall|k: Seq<char>| #[trigger] final(registry).gauged(k) == old(registry).gauged(k),
            self.follows(caller, block_id, event, r),
            match BlockRead::decision(event) {
                None => *final(registry) == *old(registry),
                Some(d) => {
                    &&& final(registry).counted(d.metric()) == wrapping_sum(
                        old(registry).counted(d.metric()),
                        1,
                    )
                    &&& forall|k: Seq<char>|
                        k != d.metric() ==> #[trigger] final(registry).counted(k) == old(
                            registry,
                        ).counted(k)
                },
            },
    {
        match (self, event) {
            (BlockRead::Local(state), BlockEvent::Local(e)) => {
                let (next, action) = state.step(block_id, e, registry);
                BlockRead::go_on(next, action)
            },
            (BlockRead::Remote(state), BlockEvent::Remote(e)) => {
                let (next, action) = state.step(caller, e);
                (
                    BlockRead::Remote(next),
                    BlockAction::Remote { close_local: false, action },
                )
            },
            (BlockRead::Local(_), BlockEvent::Remote(_)) => BlockRead::go_on(
                LocalRead::Finished,
                LocalAction::FallBack { close: false },
            ),
            (BlockRead::Remote(_), BlockEvent::Local(_)) => BlockRead::go_on(
                LocalRead::Finished,
                LocalAction::FallBack { close: false },
            ),
        }
    }

    /// How many steps are left at most.
    pub open spec fn steps_left(self) -> nat {
        match self {
            BlockRead::Local(LocalRead::Asking) => 11,
            BlockRead::Local(LocalRead::Opening) => 10,
            BlockRead::Local(LocalRead::Reading) => 9,
            BlockRead::Local(LocalRead::Finished) => 0,
            BlockRead::Remote(state) => state.steps_left(),
        }
    }
}

/// What a read gives its caller; none where it goes on.
pub open spec fn outcome(action: BlockAction) -> Option<Result<Option<Bytes>, Error>> {
    match action {
        BlockAction::Local(LocalAction::Serve(bytes)) => Some(Ok(Some(bytes))),
        BlockAction::Local(LocalAction::Refuse(e)) => Some(Err(e)),
        BlockAction::Remote { action: Action::Done, .. } => Some(Ok(None)),
        BlockAction::Remote { action: Action::Fail(e), .. } => Some(Err(e)),
        _ => None,
    }
}

/// Every read comes to an end: each step leaves fewer steps, and no more are left exactly
/// where the caller gets an outcome.
pub proof fn law_block_read_ends(
    state: BlockRead,
    caller: Caller,
    block_id: i64,
    event: BlockEvent,
    r: (BlockRead, BlockAction),
)
    requires
        state.awaits(event),
        state.follows(caller, block_id, event, r),
    ensures
        r.0.steps_left() < state.steps_left(),
        r.0.steps_left() == 0 <==> outcome(r.1) is Some,
{
}

/// A failure of the local worker never reaches the caller, but for a range that does not
/// lie in its block: every other one leads to a worker.
pub proof fn law_local_failures_fall_back(
    state: BlockRead,
    caller: Caller,
    block_id: i64,
    event: LocalEvent,
    r: (BlockRead, BlockAction),
)
    requires
        state.awaits(BlockEvent::Local(event)),
        state.follows(caller, block_id, BlockEvent::Local(event), r),
    ensures
        outcome(r.1) matches Some(Err(_)) ==> (LocalRead::decision(event) matches Some(d) && d
            is SemanticError),
        (LocalRead::decision(event) matches Some(d) && (d is Skipped || d is FallbackOpen || d
            is FallbackRead)) ==> (r.0 matches BlockRead::Remote(s) && s is Selecting),
{
}

/// What the local worker or a worker gave is what the caller gets: the bytes that were read
/// locally, success where the operation of a worker succeeded, and the error with which that
/// failed, unless it may be tried again.
pub proof fn law_outcomes_are_handed_on(
    state: BlockRead,
    caller: Caller,
    block_id: i64,
    event: BlockEvent,
    r: (BlockRead, BlockAction),
)
    requires
        state.awaits(event),
        state.follows(caller, block_id, event, r),
    ensures
        event matches BlockEvent::Local(LocalEvent::Read(Ok(bytes))) ==> outcome(r.1) == Some(
            Ok::<Option<Bytes>, Error>(Some(bytes)),
        ),
        event matches BlockEvent::Remote(Event::Attempted(Ok(_))) ==> outcome(r.1) == Some(
            Ok::<Option<Bytes>, Error>(None),
        ),
        event matches BlockEvent::Remote(Event::Attempted(Err(e))) ==> !(e
            is AuthenticationFailed) ==> outcome(r.1) == Some(Err::<Option<Bytes>, Error>(e)),
        event matches BlockEvent::Local(LocalEvent::Approved(_)) ==> outcome(r.1) is None,
        event matches BlockEvent::Local(LocalEvent::Opened(_)) ==> outcome(r.1) is None,
        event matches BlockEvent::Remote(Event::Connected(Ok(_))) ==> outcome(r.1) is None,
{
}

/// Where a local read falls back, a worker is selected, and the block is closed exactly where
/// it was opened and could not be read.
pub proof fn law_what_is_closed_on_the_way_to_a_worker(
    state: BlockRead,
    caller: Caller,
    block_id: i64,
    event: LocalEvent,
    r: (BlockRead, BlockAction),
)
    requires
        state.awaits(BlockEvent::Local(event)),
        state.follows(caller, block_id, BlockEvent::Local(event), r),
        r.1 is Remote,
    ensures
        r.0 == BlockRead::Remote(WorkerAccess::Selecting),
        r.1 matches BlockAction::Remote { close_local, action } && action is Select && (close_local
            <==> event is Read),
{
}

/// Only local events lead to a decision on the local read.
pub proof fn law_workers_make_no_decision(event: Event, local: LocalEvent)
    ensures
        BlockRead::decision(BlockEvent::Remote(event)) is None,
        BlockRead::decision(BlockEvent::Local(local)) == LocalRead::decision(local),
{
}

/// A read waits for the local worker while that is tried, and for a worker once it is asked.
pub proof fn law_what_a_block_read_waits_for(
    local: LocalRead,
    remote: WorkerAccess,
    l: LocalEvent,
    r: Event,
)
    ensures
        BlockRead::Local(local).awaits(BlockEvent::Local(l)) <==> local.awaits(l),
        BlockRead::Remote(remote).awaits(BlockEvent::Remote(r)) <==> remote.awaits(r),
        !BlockRead::Local(local).awaits(BlockEvent::Remote(r)),
        !BlockRead::Remote(remote).awaits(BlockEvent::Local(l)),
{
}

} // verus!
