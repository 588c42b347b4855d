//! The lifecycle of a stack as a state machine. The machine decides; a
//! driver performs each action against the container engine and reports
//! what came of it as the next event.

use vstd::prelude::*;

verus! {

/// The number of readiness checks after which the database is given up.
pub const MAX_ATTEMPTS: u32 = 30;

/// The pause before each readiness check, in seconds.
pub const POLL_INTERVAL_SECS: u64 = 2;

/// What a readiness timeout is reported with.
pub const READINESS_TIMEOUT_MESSAGE: &'static str = "MySQL failed to become healthy";

/// The two containers of a stack.
#[derive(Clone, Copy, Debug, PartialEq, Eq, Structural)]
pub enum ContainerRole {
    Database,
    Application,
}

/// Why a stack failed.
#[derive(Clone, Copy, Debug, PartialEq, Eq, Structural)]
pub enum StackError {
    /// A call to the container engine returned an error.
    Engine,
    /// The database was not running after the last readiness check.
    ReadinessTimeout,
}

/// Where a stack stands. Each state that names an operation has that
/// operation in flight at the engine.
#[derive(Clone, Copy, Debug, PartialEq, Eq, Structural)]
pub enum StackState {
    Created,
    CreatingDatabase,
    StartingDatabase,
    /// Pausing before the next readiness check, `attempts` checks done.
    Waiting { attempts: u32 },
    /// A readiness check is in flight, `attempts` checks done before it.
    Checking { attempts: u32 },
    CreatingApplication,
    StartingApplication,
    Ready,
    Failed { error: StackError },
    StoppingApplication,
    StoppingDatabase,
    Stopped,
    RemovingApplication,
    RemovingDatabase,
    Removed,
}

/// What the driver reports to the machine.
#[derive(Clone, Copy, Debug, PartialEq, Eq, Structural)]
pub enum StackEvent {
    StartRequested,
    StopRequested,
    CleanupRequested,
    /// The engine call in flight returned without error.
    Succeeded,
    /// The engine call in flight returned an error.
    EngineFailed,
    /// The pause is over.
    Elapsed,
    /// The readiness check found the database running.
    Running,
    /// The readiness check found the database in any other state.
    NotRunning,
}

/// What the driver is to do next.
#[derive(Clone, Copy, Debug, PartialEq, Eq, Structural)]
pub enum StackAction {
    Create(ContainerRole),
    Start(ContainerRole),
    Sleep { seconds: u64 },
    /// Ask the engine for the run state of the database container.
    Inspect,
    Stop(ContainerRole),
    /// Remove the container, by force.
    Remove(ContainerRole),
    /// The operation that was asked for is complete.
    Succeed,
    /// The operation that was asked for has failed.
    Fail(StackError),
    /// The event does not apply in this state: nothing is to be done.
    Nothing,
}

/// Whether an engine call other than a readiness check is in flight.
pub open spec fn awaits_engine(state: StackState) -> bool {
    match state {
        StackState::CreatingDatabase
        | StackState::StartingDatabase
        | StackState::CreatingApplication
        | StackState::StartingApplication
        | StackState::StoppingApplication
        | StackState::StoppingDatabase
        | StackState::RemovingApplication
        | StackState::RemovingDatabase => true,
        _ => false,
    }
}

/// The state and action that follow a successful engine call.
pub open spec fn after_success(state: StackState) -> (StackState, StackAction) {
    match state {
        StackState::CreatingDatabase => (
            StackState::StartingDatabase,
            StackAction::Start(ContainerRole::Database),
        ),
        StackState::StartingDatabase => (
            StackState::Waiting { attempts: 0 },
            StackAction::Sleep { seconds: POLL_INTERVAL_SECS },
        ),
        StackState::CreatingApplication => (
            StackState::StartingApplication,
            StackAction::Start(ContainerRole::Application),
        ),
        StackState::StartingApplication => (StackState::Ready, StackAction::Succeed),
        StackState::StoppingApplication => (
            StackState::StoppingDatabase,
            StackAction::Stop(ContainerRole::Database),
        ),
        StackState::StoppingDatabase => (StackState::Stopped, StackAction::Succeed),
        StackState::RemovingApplication => (
            StackState::RemovingDatabase,
            StackAction::Remove(ContainerRole::Database),
        ),
        StackState::RemovingDatabase => (StackState::Removed, StackAction::Succeed),
        _ => (state, StackAction::Nothing),
    }
}

/// The state and action that follow a readiness check which did not find
/// the database running, `attempts` checks having been done before it.
pub open spec fn after_failed_check(attempts: u32) -> (StackState, StackAction) {
    if attempts + 1 < MAX_ATTEMPTS {
        (
            StackState::Waiting { attempts: (attempts + 1) as u32 },
            StackAction::Sleep { seconds: POLL_INTERVAL_SECS },
        )
    } else {
        (
            StackState::Failed { error: StackError::ReadinessTimeout },
            StackAction::Fail(StackError::ReadinessTimeout),
        )
    }
}

/// The transition function: the state that follows `state` on `event`, and
/// what the driver is to do. An event that does not apply leaves the state
/// as it is and asks for nothing.
pub open spec fn transition(state: StackState, event: StackEvent) -> (StackState, StackAction) {
    match (state, event) {
        (StackState::Created, StackEvent::StartRequested) => (
            StackState::CreatingDatabase,
            StackAction::Create(ContainerRole::Database),
        ),
        (StackState::Waiting { attempts }, StackEvent::Elapsed) => (
            StackState::Checking { attempts },
            StackAction::Inspect,
        ),
        (StackState::Checking { attempts }, StackEvent::Running) => (
            StackState::CreatingApplication,
            StackAction::Create(ContainerRole::Application),
        ),
        (StackState::Checking { attempts }, StackEvent::NotRunning) => after_failed_check(attempts),
        (StackState::Checking { attempts }, StackEvent::EngineFailed) => after_failed_check(
            attempts,
        ),
        (StackState::Ready, StackEvent::StopRequested) => (
            StackState::StoppingApplication,
            StackAction::Stop(ContainerRole::Application),
        ),
        (StackState::Failed { error }, StackEvent::StopRequested) => (
            StackState::StoppingApplication,
            StackAction::Stop(ContainerRole::Application),
        ),
        (StackState::Ready, StackEvent::CleanupRequested) => (
            StackState::RemovingApplication,
            StackAction::Remove(ContainerRole::Application),
        ),
        (StackState::Failed { error }, StackEvent::CleanupRequested) => (
            StackState::RemovingApplication,
            StackAction::Remove(ContainerRole::Application),
        ),
        (_, StackEvent::Succeeded) => after_success(state),
        (_, StackEvent::EngineFailed) => if awaits_engine(state) {
            (StackState::Failed { error: StackError::Engine }, StackAction::Fail(StackError::Engine))
        } else {
            (state, StackAction::Nothing)
        },
        _ => (state, StackAction::Nothing),
    }
}

/// Whether an engine call other than a readiness check is in flight.
fn is_awaiting_engine(state: StackState) -> (awaiting: bool)
    ensures
        awaiting == awaits_engine(state),
{
    match state {
        StackState::CreatingDatabase => true,
        StackState::StartingDatabase => true,
        StackState::CreatingApplication => true,
        StackState::StartingApplication => true,
        StackState::StoppingApplication => true,
        StackState::StoppingDatabase => true,
        StackState::RemovingApplication => true,
        StackState::RemovingDatabase => true,
        _ => false,
    }
}

/// Advances the machine by one event.
pub fn step(state: StackState, event: StackEvent) -> (next: (StackState, StackAction))
    ensures
        next == transition(state, event),
{
    match event {
        StackEvent::StartRequested => match state {
            StackState::Created => (
                StackState::CreatingDatabase,
                StackAction::Create(ContainerRole::Database),
            ),
            _ => (state, StackAction::Nothing),
        },
        StackEvent::StopRequested => match state {
            StackState::Ready | StackState::Failed { .. } => (
                StackState::StoppingApplication,
                StackAction::Stop(ContainerRole::Application),
            ),
            _ => (state, StackAction::Nothing),
        },
        StackEvent::CleanupRequested => match state {
            StackState::Ready | StackState::Failed { .. } => (
                StackState::RemovingApplication,
                StackAction::Remove(ContainerRole::Application),
            ),
            _ => (state, StackAction::Nothing),
        },
        StackEvent::Succeeded => match state {
            StackState::CreatingDatabase => (
                StackState::StartingDatabase,
                StackAction::Start(ContainerRole::Database),
            ),
            StackState::StartingDatabase => (
                StackState::Waiting { attempts: 0 },
                StackAction::Sleep { seconds: POLL_INTERVAL_SECS },
            ),
            StackState::CreatingApplication => (
                StackState::StartingApplication,
                StackAction::Start(ContainerRole::Application),
            ),
            StackState::StartingApplication => (StackState::Ready, StackAction::Succeed),
            StackState::StoppingApplication => (
                StackState::StoppingDatabase,
                StackAction::Stop(ContainerRole::Database),
            ),
            StackState::StoppingDatabase => (StackState::Stopped, StackAction::Succeed),
            StackState::RemovingApplication => (
                StackState::RemovingDatabase,
                StackAction::Remove(ContainerRole::Database),
            ),
            StackState::RemovingDatabase => (StackState::Removed, StackAction::Succeed),
            _ => (state, StackAction::Nothing),
        },
        StackEvent::Elapsed => match state {
            StackState::Waiting { attempts } => (
                StackState::Checking { attempts },
                StackAction::Inspect,
            ),
            _ => (state, StackAction::Nothing),
        },
        StackEvent::Running => match state {
            StackState::Checking { .. } => (
                StackState::CreatingApplication,
                StackAction::Create(ContainerRole::Application),
            ),
            _ => (state, StackAction::Nothing),
        },
        StackEvent::NotRunning => match state {
            StackState::Checking { attempts } => failed_check(attempts),
            _ => (state, StackAction::Nothing),
        },
        StackEvent::EngineFailed => match state {
            StackState::Checking { attempts } => failed_check(attempts),
            _ => if is_awaiting_engine(state) {
                (
                    StackState::Failed { error: StackError::Engine },
                    StackAction::Fail(StackError::Engine),
                )
            } else {
                (state, StackAction::Nothing)
            },
        },
    }
}

/// Consumes one attempt of the readiness poll: pause again while the
/// budget lasts, give up with a timeout when it is spent.
fn failed_check(attempts: u32) -> (next: (StackState, StackAction))
    ensures
        next == after_failed_check(attempts),
{
    if attempts < MAX_ATTEMPTS - 1 {
        (
            StackState::Waiting { attempts: attempts + 1 },
            StackAction::Sleep { seconds: POLL_INTERVAL_SECS },
        )
    } else {
        (
            StackState::Failed { error: StackError::ReadinessTimeout },
            StackAction::Fail(StackError::ReadinessTimeout),
        )
    }
}

/// Whether the stack is bringing its application container up or has
/// brought it up.
pub open spec fn brings_up_application(state: StackState) -> bool {
    state is CreatingApplication || state is StartingApplication || state is Ready
}

/// The state that `events`, reported in turn, lead to from `state`.
pub open spec fn run(state: StackState, events: Seq<StackEvent>) -> StackState
    decreases events.len(),
{
    if events.len() == 0 {
        state
    } else {
        transition(run(state, events.drop_last()), events.last()).0
    }
}

/// The action that the machine answers the event at `index` with, when
/// `events` are reported in turn from `state`.
pub open spec fn action_at(state: StackState, events: Seq<StackEvent>, index: int) -> StackAction {
    transition(run(state, events.take(index)), events[index]).1
}

/// The state that follows `state` after `rounds` rounds of the readiness
/// poll in each of which the pause ends and the check does not find the
/// database running.
pub open spec fn after_failed_rounds(state: StackState, rounds: nat) -> StackState
    decreases rounds,
{
    if rounds == 0 {
        state
    } else {
        let checking = transition(state, StackEvent::Elapsed).0;
        let checked = transition(checking, StackEvent::NotRunning).0;
        after_failed_rounds(checked, (rounds - 1) as nat)
    }
}

/// The application container is created on one occasion only: a readiness
/// check has just found the database running. It is started only once it
/// has been created, a readiness check is made only after a pause, every
/// pause has the fixed length, and stopping or removing begins only from
/// a stack that is ready or has failed.
pub proof fn lemma_startup_order(state: StackState, event: StackEvent)
    ensures
        transition(state, event).1 == StackAction::Create(ContainerRole::Application) ==> state is Checking
            && event == StackEvent::Running,
        transition(state, event).1 == StackAction::Start(ContainerRole::Application) ==> state
            == StackState::CreatingApplication && event == StackEvent::Succeeded,
        transition(state, event).1 == StackAction::Inspect ==> state is Waiting && event
            == StackEvent::Elapsed,
        transition(state, event).1 == StackAction::Start(ContainerRole::Database) ==> state
            == StackState::CreatingDatabase && event == StackEvent::Succeeded,
        transition(state, event).1 == StackAction::Create(ContainerRole::Database) ==> state
            == StackState::Created && event == StackEvent::StartRequested,
        transition(state, event).0 is Waiting ==> state is Waiting || state is Checking || state
            == StackState::StartingDatabase,
        transition(state, event).1 is Sleep ==> transition(state, event).1 == (StackAction::Sleep {
            seconds: POLL_INTERVAL_SECS,
        }) && transition(state, event).0 is Waiting,
        transition(state, event).1 is Stop || transition(state, event).1 is Remove ==> state
            is Ready || state is Failed || awaits_engine(state),
{
}

/// The readiness poll never counts beyond its budget: from a state with
/// fewer than thirty checks done, every event leads to such a state.
pub proof fn lemma_attempts_stay_in_budget(state: StackState, event: StackEvent)
    requires
        within_budget(state),
    ensures
        within_budget(transition(state, event).0),
{
}

/// Whether the checks that `state` counts are fewer than the budget.
pub open spec fn within_budget(state: StackState) -> bool {
    match state {
        StackState::Waiting { attempts } => attempts < MAX_ATTEMPTS,
        StackState::Checking { attempts } => attempts < MAX_ATTEMPTS,
        _ => true,
    }
}

/// A database that is never found running exhausts the poll: after
/// `rounds` failed rounds the stack still waits while fewer than thirty
/// checks have been made in all, and has failed with a timeout from the
/// thirtieth on.
pub proof fn lemma_poll_exhaustion(attempts: u32, rounds: nat)
    requires
        attempts < MAX_ATTEMPTS,
    ensures
        after_failed_rounds(StackState::Waiting { attempts }, rounds) == if attempts + rounds
            < MAX_ATTEMPTS {
            StackState::Waiting { attempts: (attempts + rounds) as u32 }
        } else {
            StackState::Failed { error: StackError::ReadinessTimeout }
        },
    decreases rounds,
{
    if rounds > 0 {
        if attempts + 1 < MAX_ATTEMPTS {
            lemma_poll_exhaustion((attempts + 1) as u32, (rounds - 1) as nat);
        } else {
            lemma_failure_outlasts_poll(StackError::ReadinessTimeout, (rounds - 1) as nat);
        }
    }
}

/// A failed stack stays failed however long the poll is continued.
pub proof fn lemma_failure_outlasts_poll(error: StackError, rounds: nat)
    ensures
        after_failed_rounds(StackState::Failed { error }, rounds) == (StackState::Failed { error }),
    decreases rounds,
{
    if rounds > 0 {
        lemma_failure_outlasts_poll(error, (rounds - 1) as nat);
    }
}

/// While no readiness check has found the database running, nothing that
/// is reported to a new stack makes it create or start the application
/// container, and the stack does not become ready.
pub proof fn lemma_no_application_without_database(events: Seq<StackEvent>, index: int)
    requires
        0 <= index < events.len(),
        forall|j: int| 0 <= j <= index ==> events[j] != StackEvent::Running,
    ensures
        !brings_up_application(run(StackState::Created, events.take(index))),
        !brings_up_application(run(StackState::Created, events.take(index + 1))),
        action_at(StackState::Created, events, index) != StackAction::Create(
            ContainerRole::Application,
        ),
        action_at(StackState::Created, events, index) != StackAction::Start(
            ContainerRole::Application,
        ),
    decreases index,
{
    let before = events.take(index);
    if index > 0 {
        lemma_no_application_without_database(events, index - 1);
        assert(events.take(index - 1 + 1) == before);
    } else {
        assert(before.len() == 0);
    }
    let upto = events.take(index + 1);
    assert(upto.drop_last() =~= before);
    assert(upto.last() == events[index]);
}

} // verus!
