//! Reading a block from the memory map of a local worker.
//!
//! [`LocalRead`] decides how a read goes on; whoever runs it performs the actions and
//! reports what came of them. Every read ends in exactly one decision, which is counted.

use crate::error::Error;
use crate::metrics::name::{
    CLIENT_SC_DECISION_FALLBACK_OPEN, CLIENT_SC_DECISION_FALLBACK_READ, CLIENT_SC_DECISION_HIT,
    CLIENT_SC_DECISION_SEMANTIC_ERROR, CLIENT_SC_DECISION_SKIPPED, law_decision_names_distinct,
};
use crate::metrics::registry::{wrapping_sum, Registry};
use crate::text::{decimal, decimal_string, signed_decimal, signed_decimal_string};
use bytes::Bytes;
use vstd::prelude::*;
use vstd::string::*;

verus! {

/// Why a local read failed.
#[derive(Clone, Copy, Debug, PartialEq, Eq, Structural)]
pub enum ShortCircuitError {
    /// The range does not lie in the block.
    OutOfRange {
        /// Where the range starts.
        off: usize,
        /// How many bytes it has.
        len: usize,
        /// How many bytes the block has.
        file_size: usize,
    },
    /// Anything else.
    Other,
}

/// What became of a local read.
#[derive(Clone, Copy, Debug, PartialEq, Eq, Structural)]
pub enum Decision {
    /// The read was served.
    Hit,
    /// The read was not attempted.
    Skipped,
    /// The block could not be opened.
    FallbackOpen,
    /// The block was opened and could not be read.
    FallbackRead,
    /// The range does not lie in the block.
    SemanticError,
}

impl Decision {
    /// The counter of the decision.
    pub open spec fn metric(self) -> Seq<char> {
        match self {
            Decision::Hit => CLIENT_SC_DECISION_HIT@,
            Decision::Skipped => CLIENT_SC_DECISION_SKIPPED@,
            Decision::FallbackOpen => CLIENT_SC_DECISION_FALLBACK_OPEN@,
            Decision::FallbackRead => CLIENT_SC_DECISION_FALLBACK_READ@,
            Decision::SemanticError => CLIENT_SC_DECISION_SEMANTIC_ERROR@,
        }
    }

    /// Counts the decision.
    pub fn record(self, registry: &mut Registry)
        requires
            old(registry).wf(),
        ensures
            final(registry).wf(),
            final(registry).counted(self.metric()) == wrapping_sum(
                old(registry).counted(self.metric()),
                1,
            ),
            forall|k: Seq<char>|
                k != self.metric() ==> #[trigger] final(registry).counted(k) == old(
                    registry,
                ).counted(k),
            forall|k: Seq<char>| #[trigger] final(registry).gauged(k) == old(registry).gauged(k),
    {
        let name: &'static str = match self {
            Decision::Hit => CLIENT_SC_DECISION_HIT,
            Decision::Skipped => CLIENT_SC_DECISION_SKIPPED,
            Decision::FallbackOpen => CLIENT_SC_DECISION_FALLBACK_OPEN,
            Decision::FallbackRead => CLIENT_SC_DECISION_FALLBACK_READ,
            Decision::SemanticError => CLIENT_SC_DECISION_SEMANTIC_ERROR,
        };
        registry.count(name, 1);
    }
}

/// The message for a range that does not lie in its block.
pub open spec fn out_of_range_message(
    prefix: Seq<char>,
    block_id: i64,
    off: usize,
    len: usize,
    file_size: usize,
) -> Seq<char> {
    prefix + signed_decimal(block_id as int) + ": off="@ + decimal(off as nat) + " len="@
        + decimal(len as nat) + " block_size="@ + decimal(file_size as nat)
}

/// What the message of a positioned read starts with.
pub const OUT_OF_RANGE: &'static str = "short-circuit read out of range on block ";

/// What the message of a sequential read starts with.
pub const SEQUENTIAL_OUT_OF_RANGE: &'static str =
    "short-circuit sequential read out of range on block ";

/// The error for a range that does not lie in its block.
pub fn out_of_range(
    prefix: &str,
    block_id: i64,
    off: usize,
    len: usize,
    file_size: usize,
) -> (r: Error)
    ensures
        r matches Error::InvalidArgument { message } && message@ == out_of_range_message(
            prefix@,
            block_id,
            off,
            len,
            file_size,
        ),
{
    let mut message: String = prefix.to_owned();
    let id: String = signed_decimal_string(block_id);
    message.append(&id);
    message.append(": off=");
    let off_text: String = decimal_string(off as u128);
    message.append(&off_text);
    message.append(" len=");
    let len_text: String = decimal_string(len as u128);
    message.append(&len_text);
    message.append(" block_size=");
    let size_text: String = decimal_string(file_size as u128);
    message.append(&size_text);
    Error::InvalidArgument { message }
}

/// How far a local read has come.
#[derive(Clone, Copy, Debug, PartialEq, Eq, Structural)]
pub enum LocalRead {
    /// Whether the block is to be read locally is being asked.
    Asking,
    /// The block is being opened.
    Opening,
    /// The bytes are being read.
    Reading,
    /// Nothing is left to be done.
    Finished,
}

/// What is to be done next.
#[derive(Debug)]
pub enum LocalAction {
    /// Ask whether the block is to be read locally.
    Ask,
    /// Open the block, or find it open.
    Open,
    /// Read the bytes.
    Read,
    /// The bytes are there.
    Serve(Bytes),
    /// Give the error to the caller.
    Refuse(Error),
    /// Read from a worker instead. The block is closed first where `close` says so.
    FallBack {
        /// Whether the block that was opened is of no more use.
        close: bool,
    },
}

/// What came of an action.
#[derive(Debug)]
pub enum LocalEvent {
    /// Whether the block is to be read locally.
    Approved(bool),
    /// Whether the block is open.
    Opened(bool),
    /// The bytes, or why they could not be read.
    Read(Result<Bytes, ShortCircuitError>),
}

impl LocalRead {
    /// Whether `event` is what can come of the action that was asked for last.
    pub open spec fn awaits(self, event: LocalEvent) -> bool {
        match self {
            LocalRead::Asking => event is Approved,
            LocalRead::Opening => event is Opened,
            LocalRead::Reading => event is Read,
            LocalRead::Finished => false,
        }
    }

    /// The decision that `event` leads to; none where the read goes on.
    pub open spec fn decision(event: LocalEvent) -> Option<Decision> {
        match event {
            LocalEvent::Approved(true) | LocalEvent::Opened(true) => None,
            LocalEvent::Approved(false) => Some(Decision::Skipped),
            LocalEvent::Opened(false) => Some(Decision::FallbackOpen),
            LocalEvent::Read(Ok(_)) => Some(Decision::Hit),
            LocalEvent::Read(Err(ShortCircuitError::OutOfRange { .. })) => Some(
                Decision::SemanticError,
            ),
            LocalEvent::Read(Err(ShortCircuitError::Other)) => Some(Decision::FallbackRead),
        }
    }

    /// Whether `next` and `action` are what follows `event`.
    pub open spec fn follows(
        block_id: i64,
        event: LocalEvent,
        next: LocalRead,
        action: LocalAction,
    ) -> bool {
        match event {
            LocalEvent::Approved(yes) => if yes {
                next is Opening && action is Open
            } else {
                next is Finished && action == (LocalAction::FallBack { close: false })
            },
            LocalEvent::Opened(yes) => if yes {
                next is Reading && action is Read
            } else {
                next is Finished && action == (LocalAction::FallBack { close: false })
            },
            LocalEvent::Read(Ok(bytes)) => next is Finished && action == LocalAction::Serve(bytes),
            LocalEvent::Read(Err(ShortCircuitError::OutOfRange { off, len, file_size })) => {
                &&& next is Finished
                &&& action matches LocalAction::Refuse(Error::InvalidArgument { message })
                &&& message@ == out_of_range_message(OUT_OF_RANGE@, block_id, off, len, file_size)
            },
            LocalEvent::Read(Err(ShortCircuitError::Other)) => next is Finished && action == (
            LocalAction::FallBack { close: true }),
        }
    }

    /// Starts a read. Where local reads are off (`available` is false), it ends at once.
    pub fn start(available: bool, registry: &mut Registry) -> (r: (LocalRead, LocalAction))
        requires
            old(registry).wf(),
        ensures
            final(registry).wf(),
            forall|k: Seq<char>| #[trigger] final(registry).gauged(k) == old(registry).gauged(k),
            available ==> r.0 is Asking && r.1 is Ask && *final(registry) == *old(registry),
            !available ==> {
                &&& r.0 is Finished
                &&& r.1 == (LocalAction::FallBack { close: false })
                &&& final(registry).counted(Decision::Skipped.metric()) == wrapping_sum(
                    old(registry).counted(Decision::Skipped.metric()),
                    1,
                )
                &&& forall|k: Seq<char>|
                    k != Decision::Skipped.metric() ==> #[trigger] final(registry).counted(k)
                        == old(registry).counted(k)
            },
    {
        if available {
            (LocalRead::Asking, LocalAction::Ask)
        } else {
            Decision::Skipped.record(registry);
            (LocalRead::Finished, LocalAction::FallBack { close: false })
        }
    }

    /// What to do after `event`. A decision is counted when it is made.
    pub fn step(self, block_id: i64, event: LocalEvent, registry: &mut Registry) -> (r: (
        LocalRead,
        LocalAction,
    ))
        requires
            self.awaits(event),
            old(registry).wf(),
        ensures
            final(registry).wf(),
            forall|k: Seq<char>| #[trigger] final(registry).gauged(k) == old(registry).gauged(k),
            LocalRead::follows(block_id, event, r.0, r.1),
            match LocalRead::decision(event) {
                None => *final(registry) == *old(registry),
                Some(d) => {
                    &&& final(registry).counted(d.metric()) == wrapping_sum(
                        old(registry).counted(d.metric()),
                        1,
                    )
                    &&& forall|k: Seq<char>|
                        k != d.metric() ==> #[trigger] final(registry).counted(k) == old(
                            registry,
                        ).counted(k)
                },
            },
    {
        match event {
            LocalEvent::Approved(yes) => if yes {
                (LocalRead::Opening, LocalAction::Open)
            } else {
                Decision::Skipped.record(registry);
                (LocalRead::Finished, LocalAction::FallBack { close: false })
            },
            LocalEvent::Opened(yes) => if yes {
                (LocalRead::Reading, LocalAction::Read)
            } else {
                Decision::FallbackOpen.record(registry);
                (LocalRead::Finished, LocalAction::FallBack { close: false })
            },
            LocalEvent::Read(result) => match result {
                Ok(bytes) => {
                    Decision::Hit.record(registry);
                    (LocalRead::Finished, LocalAction::Serve(bytes))
                },
                Err(ShortCircuitError::OutOfRange { off, len, file_size }) => {
                    Decision::SemanticError.record(registry);
                    let e: Error = out_of_range(OUT_OF_RANGE, block_id, off, len, file_size);
                    (LocalRead::Finished, LocalAction::Refuse(e))
                },
                Err(ShortCircuitError::Other) => {
                    Decision::FallbackRead.record(registry);
                    (LocalRead::Finished, LocalAction::FallBack { close: true })
                },
            },
        }
    }
}

/// A local read falls back to a worker on every failure but one: a range that does not lie
/// in its block is an error of the caller.
pub proof fn law_only_a_wrong_range_is_refused(
    state: LocalRead,
    block_id: i64,
    event: LocalEvent,
    next: LocalRead,
    action: LocalAction,
)
    requires
        state.awaits(event),
        LocalRead::follows(block_id, event, next, action),
    ensures
        action is Refuse <==> event matches LocalEvent::Read(
            Err(ShortCircuitError::OutOfRange { .. }),
        ),
        action is Serve <==> event matches LocalEvent::Read(Ok(_)),
{
}

/// A read ends exactly where a decision is made.
pub proof fn law_one_decision_per_read(
    state: LocalRead,
    block_id: i64,
    event: LocalEvent,
    next: LocalRead,
    action: LocalAction,
)
    requires
        state.awaits(event),
        LocalRead::follows(block_id, event, next, action),
    ensures
        next is Finished <==> LocalRead::decision(event) is Some,
{
}

/// What is done after each event of a local read: it is opened where it was approved and read
/// where it was opened, the bytes that came are served, and otherwise a worker is asked. Only
/// a block that could not be read is closed.
pub proof fn law_what_follows_in_a_local_read(
    block_id: i64,
    event: LocalEvent,
    next: LocalRead,
    action: LocalAction,
)
    requires
        LocalRead::follows(block_id, event, next, action),
    ensures
        action is Open <==> event == LocalEvent::Approved(true),
        action is Read <==> event == LocalEvent::Opened(true),
        event matches LocalEvent::Read(Ok(bytes)) ==> action == LocalAction::Serve(bytes),
        action == (LocalAction::FallBack { close: true }) <==> event == LocalEvent::Read(
            Err(ShortCircuitError::Other),
        ),
        action == (LocalAction::FallBack { close: false }) <==> event == LocalEvent::Approved(
            false,
        ) || event == LocalEvent::Opened(false),
        !(action is Ask),
        action is Open ==> next is Opening,
        action is Read ==> next is Reading,
{
}

/// A local read waits for the answer to what was asked of it last, and for nothing once it has
/// ended.
pub proof fn law_what_a_local_read_waits_for(event: LocalEvent)
    ensures
        LocalRead::Asking.awaits(event) <==> event is Approved,
        LocalRead::Opening.awaits(event) <==> event is Opened,
        LocalRead::Reading.awaits(event) <==> event is Read,
        !LocalRead::Finished.awaits(event),
{
}

/// Which event is which decision.
pub proof fn law_events_and_decisions(event: LocalEvent)
    ensures
        LocalRead::decision(event) == Some(Decision::Hit) <==> event matches LocalEvent::Read(
            Ok(_),
        ),
        LocalRead::decision(event) == Some(Decision::Skipped) <==> event == LocalEvent::Approved(
            false,
        ),
        LocalRead::decision(event) == Some(Decision::FallbackOpen) <==> event
            == LocalEvent::Opened(false),
        LocalRead::decision(event) == Some(Decision::FallbackRead) <==> event
            == LocalEvent::Read(Err(ShortCircuitError::Other)),
        LocalRead::decision(event) == Some(Decision::SemanticError) <==> event
            matches LocalEvent::Read(Err(ShortCircuitError::OutOfRange { .. })),
{
}

/// Each decision is counted under a name of its own.
pub proof fn law_decisions_are_counted_by_name(d: Decision)
    ensures
        d is Hit <==> d.metric() == "Client.ShortCircuitDecisionHit"@,
        d is Skipped <==> d.metric() == "Client.ShortCircuitDecisionSkipped"@,
        d is FallbackOpen <==> d.metric() == "Client.ShortCircuitDecisionFallbackOpen"@,
        d is FallbackRead <==> d.metric() == "Client.ShortCircuitDecisionFallbackRead"@,
        d is SemanticError <==> d.metric() == "Client.ShortCircuitDecisionSemanticError"@,
{
    law_decision_names_distinct();
}

/// A range that does not lie in its block is refused with a message that names the block, the
/// start and the length of the range, and the length of the block.
pub proof fn law_wrong_range_is_named(
    block_id: i64,
    off: usize,
    len: usize,
    file_size: usize,
    next: LocalRead,
    action: LocalAction,
)
    requires
        block_id >= 0,
        LocalRead::follows(
            block_id,
            LocalEvent::Read(Err(ShortCircuitError::OutOfRange { off, len, file_size })),
            next,
            action,
        ),
    ensures
        action matches LocalAction::Refuse(Error::InvalidArgument { message }) && message@
            == "short-circuit read out of range on block "@ + decimal(block_id as nat) + ": off="@
            + decimal(off as nat) + " len="@ + decimal(len as nat) + " block_size="@ + decimal(
            file_size as nat,
        ),
        next is Finished,
{
}

} // verus!
