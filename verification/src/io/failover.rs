//! Reaching a worker for a block, and trying again where that can help.
//!
//! [`WorkerAccess`] decides what to do next; whoever runs it performs the actions and
//! reports what came of them.

use crate::block::router::{endpoint, rpc_endpoint};
use crate::error::Error;
use crate::proto::{WorkerInfo, WorkerNetAddress};
use vstd::prelude::*;
use vstd::string::*;

verus! {

/// Who asks for the worker. The two differ in how they go on after a failure.
#[derive(Clone, Copy, Debug, PartialEq, Eq, Structural)]
pub enum Caller {
    /// A seekable stream. After a failed connection it drops what the pool holds for the
    /// worker, and before it authenticates again for a block it selects a worker anew.
    Stream,
    /// A reader of whole segments.
    Reader,
}

/// What is to be done next.
#[derive(Debug)]
pub enum Action {
    /// Select a worker for the block.
    Select,
    /// Get a connection to the worker at `addr`, from the pool where there is one.
    Acquire {
        /// The endpoint.
        addr: String,
    },
    /// Authenticate anew at `addr`; a connection newer than `stale` will do.
    Reconnect {
        /// The endpoint.
        addr: String,
        /// The connection that failed.
        stale: Option<u64>,
    },
    /// Mark a worker as failed, then select a worker for the block.
    SelectElsewhere {
        /// The worker that failed.
        failed: WorkerNetAddress,
        /// The endpoint whose pooled connections are to be dropped.
        drop_pooled: Option<String>,
    },
    /// Run the operation over the connection.
    Attempt,
    /// The operation succeeded.
    Done,
    /// Give the error to the caller.
    Fail(Error),
}

/// What came of an action.
#[derive(Debug)]
pub enum Event {
    /// A worker was selected, or none could be.
    Selected(Result<WorkerInfo, Error>),
    /// A connection stands, with its generation, or could not be had.
    Connected(Result<u64, Error>),
    /// The operation succeeded, or failed.
    Attempted(Result<(), Error>),
}

/// How far the access to a worker has come.
#[derive(Debug)]
pub enum WorkerAccess {
    /// A worker is being selected.
    Selecting,
    /// The first worker is being connected to.
    Acquiring {
        /// The endpoint.
        addr: String,
        /// The worker.
        worker: WorkerNetAddress,
    },
    /// The first worker did not accept the credentials, and is being connected to again.
    Reauthenticating {
        /// The endpoint.
        addr: String,
    },
    /// The first worker could not be reached, and another one is being selected.
    SelectingElsewhere {
        /// Why the first worker could not be reached.
        error: Error,
    },
    /// The second worker is being connected to.
    AcquiringElsewhere {
        /// The endpoint of the second worker.
        addr: String,
    },
    /// The operation runs.
    Attempting {
        /// The endpoint of the worker that the connection leads to.
        addr: String,
        /// The connection.
        generation: u64,
    },
    /// The credentials expired during the operation, and a worker is being selected.
    SelectingAgain {
        /// The connection that failed.
        generation: u64,
    },
    /// The credentials expired during the operation, and a connection is being made.
    Renewing,
    /// The operation runs for the second time.
    AttemptingAgain,
    /// Nothing is left to be done.
    Finished,
}

/// The message for a worker without an address.
pub const NO_ADDRESS: &'static str = "worker has no address";

/// The message for a second worker without an address.
pub const RETRY_NO_ADDRESS: &'static str = "retry worker has no address";

/// Whether `e` says that a worker has no address.
pub open spec fn says_no_address(e: Error, message: Seq<char>) -> bool {
    e matches Error::Internal { message: m } && m@ == message
}

/// The endpoint of a worker.
pub fn worker_addr(info: &WorkerInfo) -> (r: Result<String, Error>)
    ensures
        match info.address {
            Some(a) => r matches Ok(s) && s@ == endpoint(a),
            None => r matches Err(e) && says_no_address(e, NO_ADDRESS@),
        },
{
    match &info.address {
        Some(a) => Ok(rpc_endpoint(a)),
        None => Err(Error::Internal { message: NO_ADDRESS.to_owned() }),
    }
}

impl WorkerAccess {
    /// Whether `event` is what can come of the action that was asked for last.
    pub open spec fn awaits(self, event: Event) -> bool {
        match self {
            WorkerAccess::Selecting | WorkerAccess::SelectingElsewhere {
                ..
            } | WorkerAccess::SelectingAgain { .. } => event is Selected,
            WorkerAccess::Acquiring { .. } | WorkerAccess::Reauthenticating {
                ..
            } | WorkerAccess::AcquiringElsewhere { .. } | WorkerAccess::Renewing => event is Connected,
            WorkerAccess::Attempting { .. } | WorkerAccess::AttemptingAgain => event is Attempted,
            WorkerAccess::Finished => false,
        }
    }

    /// How many steps are left at most.
    pub open spec fn steps_left(self) -> nat {
        match self {
            WorkerAccess::Selecting => 8,
            WorkerAccess::Acquiring { .. } => 7,
            WorkerAccess::SelectingElsewhere { .. } => 6,
            WorkerAccess::AcquiringElsewhere { .. } => 5,
            WorkerAccess::Reauthenticating { .. } => 5,
            WorkerAccess::Attempting { .. } => 4,
            WorkerAccess::SelectingAgain { .. } => 3,
            WorkerAccess::Renewing => 2,
            WorkerAccess::AttemptingAgain => 1,
            WorkerAccess::Finished => 0,
        }
    }

    /// What follows a selection of the first worker.
    pub open spec fn after_selection(
        chosen: Result<WorkerInfo, Error>,
        next: WorkerAccess,
        action: Action,
    ) -> bool {
        match chosen {
            Err(e) => next is Finished && action == Action::Fail(e),
            Ok(info) => match info.address {
                None => next is Finished && (action matches Action::Fail(e) && says_no_address(
                    e,
                    NO_ADDRESS@,
                )),
                Some(a) => {
                    &&& next matches WorkerAccess::Acquiring { addr, worker }
                    &&& addr@ == endpoint(a)
                    &&& worker == a
                    &&& action matches Action::Acquire { addr: to }
                    &&& to@ == endpoint(a)
                },
            },
        }
    }

    /// What follows the first attempt to connect to the first worker.
    pub open spec fn after_first_connection(
        caller: Caller,
        addr: Seq<char>,
        worker: WorkerNetAddress,
        result: Result<u64, Error>,
        next: WorkerAccess,
        action: Action,
    ) -> bool {
        match result {
            Ok(g) => {
                &&& next matches WorkerAccess::Attempting { addr: a, generation }
                &&& a@ == addr
                &&& generation == g
                &&& action is Attempt
            },
            Err(e) => if e is AuthenticationFailed {
                &&& next matches WorkerAccess::Reauthenticating { addr: a }
                &&& a@ == addr
                &&& action matches Action::Reconnect { addr: to, stale }
                &&& to@ == addr
                &&& stale is None
            } else {
                &&& next matches WorkerAccess::SelectingElsewhere { error }
                &&& error == e
                &&& action matches Action::SelectElsewhere { failed, drop_pooled }
                &&& failed == worker
                &&& match caller {
                    Caller::Stream => drop_pooled matches Some(d) && d@ == addr,
                    Caller::Reader => drop_pooled is None,
                }
            },
        }
    }

    /// What follows the selection of a second worker.
    pub open spec fn after_second_selection(
        caller: Caller,
        error: Error,
        chosen: Result<WorkerInfo, Error>,
        next: WorkerAccess,
        action: Action,
    ) -> bool {
        match chosen {
            Err(e) => next is Finished && action == Action::Fail(
                match caller {
                    Caller::Stream => e,
                    Caller::Reader => error,
                },
            ),
            Ok(info) => match info.address {
                None => next is Finished && (action matches Action::Fail(e) && says_no_address(
                    e,
                    match caller {
                        Caller::Stream => RETRY_NO_ADDRESS@,
                        Caller::Reader => NO_ADDRESS@,
                    },
                )),
                Some(a) => {
                    &&& next matches WorkerAccess::AcquiringElsewhere { addr }
                    &&& addr@ == endpoint(a)
                    &&& action matches Action::Acquire { addr: to }
                    &&& to@ == endpoint(a)
                },
            },
        }
    }

    /// What follows an attempt to connect that is not repeated.
    pub open spec fn after_last_connection(
        addr: Seq<char>,
        result: Result<u64, Error>,
        next: WorkerAccess,
        action: Action,
    ) -> bool {
        match result {
            Ok(g) => {
                &&& next matches WorkerAccess::Attempting { addr: a, generation }
                &&& a@ == addr
                &&& generation == g
                &&& action is Attempt
            },
            Err(e) => next is Finished && action == Action::Fail(e),
        }
    }

    /// What follows the first run of the operation.
    pub open spec fn after_first_attempt(
        caller: Caller,
        addr: Seq<char>,
        generation: u64,
        result: Result<(), Error>,
        next: WorkerAccess,
        action: Action,
    ) -> bool {
        match result {
            Ok(_) => next is Finished && action is Done,
            Err(e) => if e is AuthenticationFailed {
                match caller {
                    Caller::Stream => next == (WorkerAccess::SelectingAgain { generation })
                        && action is Select,
                    Caller::Reader => {
                        &&& next is Renewing
                        &&& action matches Action::Reconnect { addr: to, stale }
                        &&& to@ == addr
                        &&& stale == Some(generation)
                    },
                }
            } else {
                next is Finished && action == Action::Fail(e)
            },
        }
    }

    /// What follows the selection of a worker after the credentials expired.
    pub open spec fn after_third_selection(
        generation: u64,
        chosen: Result<WorkerInfo, Error>,
        next: WorkerAccess,
        action: Action,
    ) -> bool {
        match chosen {
            Err(e) => next is Finished && action == Action::Fail(e),
            Ok(info) => match info.address {
                None => next is Finished && (action matches Action::Fail(e) && says_no_address(
                    e,
                    NO_ADDRESS@,
                )),
                Some(a) => {
                    &&& next is Renewing
                    &&& action matches Action::Reconnect { addr: to, stale }
                    &&& to@ == endpoint(a)
                    &&& stale == Some(generation)
                },
            },
        }
    }

    /// Whether `next` and `action` are what follows `event`.
    pub open spec fn follows(
        self,
        caller: Caller,
        event: Event,
        next: WorkerAccess,
        action: Action,
    ) -> bool {
        match (self, event) {
            (WorkerAccess::Selecting, Event::Selected(chosen)) => WorkerAccess::after_selection(
                chosen,
                next,
                action,
            ),
            (
                WorkerAccess::Acquiring { addr, worker },
                Event::Connected(result),
            ) => WorkerAccess::after_first_connection(caller, addr@, worker, result, next, action),
            (
                WorkerAccess::Reauthenticating { addr },
                Event::Connected(result),
            ) => WorkerAccess::after_last_connection(addr@, result, next, action),
            (
                WorkerAccess::SelectingElsewhere { error },
                Event::Selected(chosen),
            ) => WorkerAccess::after_second_selection(caller, error, chosen, next, action),
            (
                WorkerAccess::AcquiringElsewhere { addr },
                Event::Connected(result),
            ) => WorkerAccess::after_last_connection(addr@, result, next, action),
            (
                WorkerAccess::Attempting { addr, generation },
                Event::Attempted(result),
            ) => WorkerAccess::after_first_attempt(
                caller,
                addr@,
                generation,
                result,
                next,
                action,
            ),
            (
                WorkerAccess::SelectingAgain { generation },
                Event::Selected(chosen),
            ) => WorkerAccess::after_third_selection(generation, chosen, next, action),
            (WorkerAccess::Renewing, Event::Connected(result)) => match result {
                Ok(_) => next is AttemptingAgain && action is Attempt,
                Err(e) => next is Finished && action == Action::Fail(e),
            },
            (WorkerAccess::AttemptingAgain, Event::Attempted(result)) => match result {
                Ok(_) => next is Finished && action is Done,
                Err(e) => next is Finished && action == Action::Fail(e),
            },
            _ => false,
        }
    }

    /// Starts by selecting a worker.
    pub fn start() -> (r: (WorkerAccess, Action))
        ensures
            r.0 is Selecting,
            r.1 is Select,
    {
        (WorkerAccess::Selecting, Action::Select)
    }

    /// What to do after `event`.
    pub fn step(self, caller: Caller, event: Event) -> (r: (WorkerAccess, Action))
        requires
            self.awaits(event),
        ensures
            self.follows(caller, event, r.0, r.1),
    {
        match (self, event) {
            (WorkerAccess::Selecting, Event::Selected(chosen)) => connect_to(chosen),
            (WorkerAccess::Acquiring { addr, worker }, Event::Connected(result)) => match result {
                Ok(generation) => (
                    WorkerAccess::Attempting { addr, generation },
                    Action::Attempt,
                ),
                Err(e) => if e.is_authentication_failed() {
                    let to: String = addr.as_str().to_owned();
                    (
                        WorkerAccess::Reauthenticating { addr },
                        Action::Reconnect { addr: to, stale: None },
                    )
                } else {
                    let drop_pooled: Option<String> = match caller {
                        Caller::Stream => Some(addr),
                        Caller::Reader => None,
                    };
                    (
                        WorkerAccess::SelectingElsewhere { error: e },
                        Action::SelectElsewhere { failed: worker, drop_pooled },
                    )
                },
            },
            (
                WorkerAccess::Reauthenticating { addr },
                Event::Connected(result),
            ) => attempt_over(addr, result),
            (
                WorkerAccess::SelectingElsewhere { error },
                Event::Selected(chosen),
            ) => match chosen {
                Err(e) => {
                    let reported: Error = match caller {
                        Caller::Stream => e,
                        Caller::Reader => error,
                    };
                    (WorkerAccess::Finished, Action::Fail(reported))
                },
                Ok(info) => match worker_addr(&info) {
                    Ok(addr) => {
                        let to: String = addr.as_str().to_owned();
                        (
                            WorkerAccess::AcquiringElsewhere { addr },
                            Action::Acquire { addr: to },
                        )
                    },
                    Err(e) => {
                        let reported: Error = match caller {
                            Caller::Stream => Error::Internal {
                                message: RETRY_NO_ADDRESS.to_owned(),
                            },
                            Caller::Reader => e,
                        };
                        (WorkerAccess::Finished, Action::Fail(reported))
                    },
                },
            },
            (
                WorkerAccess::AcquiringElsewhere { addr },
                Event::Connected(result),
            ) => attempt_over(addr, result),
            (
                WorkerAccess::Attempting { addr, generation },
                Event::Attempted(result),
            ) => match result {
                Ok(_) => (WorkerAccess::Finished, Action::Done),
                Err(e) => if e.is_authentication_failed() {
                    match caller {
                        Caller::Stream => (
                            WorkerAccess::SelectingAgain { generation },
                            Action::Select,
                        ),
                        Caller::Reader => (
                            WorkerAccess::Renewing,
                            Action::Reconnect { addr, stale: Some(generation) },
                        ),
                    }
                } else {
                    (WorkerAccess::Finished, Action::Fail(e))
                },
            },
            (
                WorkerAccess::SelectingAgain { generation },
                Event::Selected(chosen),
            ) => match chosen {
                Err(e) => (WorkerAccess::Finished, Action::Fail(e)),
                Ok(info) => match worker_addr(&info) {
                    Ok(addr) => (
                        WorkerAccess::Renewing,
                        Action::Reconnect { addr, stale: Some(generation) },
                    ),
                    Err(e) => (WorkerAccess::Finished, Action::Fail(e)),
                },
            },
            (WorkerAccess::Renewing, Event::Connected(result)) => match result {
                Ok(_) => (WorkerAccess::AttemptingAgain, Action::Attempt),
                Err(e) => (WorkerAccess::Finished, Action::Fail(e)),
            },
            (WorkerAccess::AttemptingAgain, Event::Attempted(result)) => match result {
                Ok(_) => (WorkerAccess::Finished, Action::Done),
                Err(e) => (WorkerAccess::Finished, Action::Fail(e)),
            },
            (_, _) => (WorkerAccess::Finished, Action::Done),
        }
    }
}

/// Connects to the first worker.
fn connect_to(chosen: Result<WorkerInfo, Error>) -> (r: (WorkerAccess, Action))
    ensures
        WorkerAccess::after_selection(chosen, r.0, r.1),
{
    match chosen {
        Err(e) => (WorkerAccess::Finished, Action::Fail(e)),
        Ok(info) => match worker_addr(&info) {
            Err(e) => (WorkerAccess::Finished, Action::Fail(e)),
            Ok(addr) => {
                let to: String = addr.as_str().to_owned();
                match info.address {
                    Some(worker) => (
                        WorkerAccess::Acquiring { addr, worker },
                        Action::Acquire { addr: to },
                    ),
                    None => (WorkerAccess::Finished, Action::Done),
                }
            },
        },
    }
}

/// Runs the operation where there is a connection.
fn attempt_over(addr: String, result: Result<u64, Error>) -> (r: (WorkerAccess, Action))
    ensures
        WorkerAccess::after_last_connection(addr@, result, r.0, r.1),
{
    match result {
        Ok(generation) => (WorkerAccess::Attempting { addr, generation }, Action::Attempt),
        Err(e) => (WorkerAccess::Finished, Action::Fail(e)),
    }
}

/// Every access comes to an end: each step leaves fewer steps, and the access is finished
/// exactly where the outcome is known.
pub proof fn law_access_ends(
    state: WorkerAccess,
    caller: Caller,
    event: Event,
    next: WorkerAccess,
    action: Action,
)
    requires
        state.follows(caller, event, next, action),
    ensures
        next.steps_left() < state.steps_left(),
        next is Finished <==> action is Done || action is Fail,
{
}

/// How often the operation can still be run.
pub open spec fn runs_left(state: WorkerAccess) -> nat {
    match state {
        WorkerAccess::Attempting { .. } | WorkerAccess::SelectingAgain {
            ..
        } | WorkerAccess::Renewing => 1,
        WorkerAccess::AttemptingAgain | WorkerAccess::Finished => 0,
        _ => 2,
    }
}

/// The operation runs at most twice, and the second run comes only after the credentials
/// were refused during the first.
pub proof fn law_operation_runs_at_most_twice(
    state: WorkerAccess,
    caller: Caller,
    event: Event,
    next: WorkerAccess,
    action: Action,
)
    requires
        state.follows(caller, event, next, action),
    ensures
        action is Attempt ==> runs_left(next) < runs_left(state),
        runs_left(next) <= runs_left(state),
        state is Attempting && !(next is Finished) ==> (event matches Event::Attempted(Err(e)) && e
            is AuthenticationFailed),
{
}

/// A connection that fails for any reason but the credentials leads to another worker; one
/// that fails because of the credentials leads to the same worker again.
pub proof fn law_where_to_after_a_failed_connection(
    addr: String,
    worker: WorkerNetAddress,
    caller: Caller,
    e: Error,
    next: WorkerAccess,
    action: Action,
)
    requires
        (WorkerAccess::Acquiring { addr, worker }).follows(
            caller,
            Event::Connected(Err(e)),
            next,
            action,
        ),
    ensures
        e is AuthenticationFailed ==> (action matches Action::Reconnect { addr: to, stale } && to@
            == addr@ && stale is None),
        !(e is AuthenticationFailed) ==> (action matches Action::SelectElsewhere { failed, .. }
            && failed == worker),
{
}

/// The endpoint that an action connects to; none where it connects to no worker.
pub open spec fn connects_to(action: Action) -> Option<Seq<char>> {
    match action {
        Action::Acquire { addr } => Some(addr@),
        Action::Reconnect { addr, .. } => Some(addr@),
        _ => None,
    }
}

/// A reader whose credentials are refused during the operation renews the connection that
/// was refused: at the worker it leads to, be that the first or the second one, and with
/// its generation.
///
/// `action` asks for the connection, `g` is its generation, and `renewal` follows where the
/// operation is refused over it.
pub proof fn law_refused_read_renews_its_connection(
    state: WorkerAccess,
    event: Event,
    connecting: WorkerAccess,
    action: Action,
    g: u64,
    attempting: WorkerAccess,
    attempt: Action,
    e: Error,
    next: WorkerAccess,
    renewal: Action,
)
    requires
        state.follows(Caller::Reader, event, connecting, action),
        connects_to(action) is Some,
        connecting.follows(Caller::Reader, Event::Connected(Ok(g)), attempting, attempt),
        attempting is Attempting,
        attempting.follows(Caller::Reader, Event::Attempted(Err(e)), next, renewal),
        e is AuthenticationFailed,
    ensures
        renewal matches Action::Reconnect { addr, stale } && Some(addr@) == connects_to(action)
            && stale == Some(g),
{
}

/// Success is reported exactly where a run of the operation succeeded.
pub proof fn law_done_means_the_operation_succeeded(
    state: WorkerAccess,
    caller: Caller,
    event: Event,
    next: WorkerAccess,
    action: Action,
)
    requires
        state.follows(caller, event, next, action),
    ensures
        action is Done <==> event matches Event::Attempted(Ok(_)),
{
}

/// A worker that was selected is connected to at its own address; one without an address, and
/// a selection that failed, end the access with an error that says so.
pub proof fn law_selected_worker_is_connected_to(
    state: WorkerAccess,
    caller: Caller,
    info: WorkerInfo,
    e: Error,
    next: WorkerAccess,
    action: Action,
    next_failed: WorkerAccess,
    failed: Action,
)
    requires
        state is Selecting || state is SelectingElsewhere || state is SelectingAgain,
        state.follows(caller, Event::Selected(Ok(info)), next, action),
        state.follows(caller, Event::Selected(Err(e)), next_failed, failed),
    ensures
        info.address matches Some(a) ==> connects_to(action) == Some(endpoint(a)),
        info.address matches Some(a) ==> (action is Reconnect <==> state is SelectingAgain),
        info.address is None ==> next is Finished && (action matches Action::Fail(
            Error::Internal { message },
        ) && message@ == if state is SelectingElsewhere && caller is Stream {
            "retry worker has no address"@
        } else {
            "worker has no address"@
        }),
        next_failed is Finished,
        failed == Action::Fail(
            if state is SelectingElsewhere && caller is Reader {
                state->error
            } else {
                e
            },
        ),
{
}

/// A connection that stands is used for the operation, with its generation and the address
/// that it was asked for at.
pub proof fn law_connection_is_used(
    state: WorkerAccess,
    caller: Caller,
    g: u64,
    next: WorkerAccess,
    action: Action,
)
    requires
        state.awaits(Event::Connected(Ok(g))),
        state.follows(caller, Event::Connected(Ok(g)), next, action),
    ensures
        action is Attempt,
        state is Renewing <==> next is AttemptingAgain,
        state matches WorkerAccess::Acquiring { addr: to, worker } ==> (next
            matches WorkerAccess::Attempting { addr, generation } && addr@ == to@ && generation
            == g),
        state matches WorkerAccess::AcquiringElsewhere { addr: to } ==> (next
            matches WorkerAccess::Attempting { addr, generation } && addr@ == to@ && generation
            == g),
        state matches WorkerAccess::Reauthenticating { addr: to } ==> (next
            matches WorkerAccess::Attempting { addr, generation } && addr@ == to@ && generation
            == g),
{
}

/// Which failures end an access, and with what error: a connection that fails for the second
/// time, an operation that fails for another reason than the credentials, and one that fails
/// for the second time. The error is the one that came last.
pub proof fn law_last_failure_is_reported(
    state: WorkerAccess,
    caller: Caller,
    e: Error,
    next: WorkerAccess,
    action: Action,
)
    requires
        state.follows(caller, Event::Connected(Err(e)), next, action) || state.follows(
            caller,
            Event::Attempted(Err(e)),
            next,
            action,
        ),
    ensures
        next is Finished <==> action == Action::Fail(e),
        next is Finished <==> !(state is Acquiring) && !(state is Attempting && e
            is AuthenticationFailed),
{
}

/// A stream drops what the pool holds for a worker that it could not connect to; a reader
/// leaves the pool alone.
pub proof fn law_only_streams_drop_pooled_connections(
    addr: String,
    worker: WorkerNetAddress,
    caller: Caller,
    e: Error,
    next: WorkerAccess,
    action: Action,
)
    requires
        (WorkerAccess::Acquiring { addr, worker }).follows(
            caller,
            Event::Connected(Err(e)),
            next,
            action,
        ),
        !(e is AuthenticationFailed),
    ensures
        next == (WorkerAccess::SelectingElsewhere { error: e }),
        action matches Action::SelectElsewhere { failed, drop_pooled } && match caller {
            Caller::Stream => drop_pooled matches Some(d) && d@ == addr@,
            Caller::Reader => drop_pooled is None,
        },
{
}

/// After the credentials expired during the operation, a stream selects a worker anew and
/// authenticates there, over no older connection than the one that failed.
pub proof fn law_refused_stream_selects_anew(
    addr: String,
    g: u64,
    e: Error,
    selecting: WorkerAccess,
    select: Action,
    info: WorkerInfo,
    a: WorkerNetAddress,
    next: WorkerAccess,
    action: Action,
)
    requires
        (WorkerAccess::Attempting { addr, generation: g }).follows(
            Caller::Stream,
            Event::Attempted(Err(e)),
            selecting,
            select,
        ),
        e is AuthenticationFailed,
        info.address == Some(a),
        selecting.follows(Caller::Stream, Event::Selected(Ok(info)), next, action),
    ensures
        select is Select,
        next is Renewing,
        action matches Action::Reconnect { addr: to, stale } && to@ == endpoint(a) && stale
            == Some(g),
{
}

/// What an access waits for is the answer to what it asked for last.
pub proof fn law_what_an_access_waits_for(
    state: WorkerAccess,
    caller: Caller,
    event: Event,
    next: WorkerAccess,
    action: Action,
    answer: Event,
)
    requires
        state.awaits(event),
        state.follows(caller, event, next, action),
    ensures
        action is Select || action is SelectElsewhere ==> (next.awaits(answer) <==> answer
            is Selected),
        action is Acquire || action is Reconnect ==> (next.awaits(answer) <==> answer
            is Connected),
        action is Attempt ==> (next.awaits(answer) <==> answer is Attempted),
        action is Done || action is Fail ==> !next.awaits(answer),
{
}

} // verus!
