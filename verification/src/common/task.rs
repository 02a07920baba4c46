//! The life cycle of a service's tasks: the names they are known by, how
//! each is launched, what is logged when one ends, and the steps of the
//! shutdown that follows the first one to end.

use vstd::prelude::*;
use vstd::string::*;
use std::collections::HashMap;

verus! {

broadcast use vstd::std_specs::hash::group_hash_axioms;

/// How long, in seconds, the remaining tasks get to finish once shutdown begins.
pub fn graceful_shutdown_seconds() -> (r: u64)
    ensures
        r == 3,
{
    3
}

/// How a task learns that the service shuts down.
#[derive(Clone, Copy, Debug, PartialEq, Eq, Structural)]
pub enum ShutdownType {
    /// The task listens for the shutdown signal itself and exits on its own.
    Integrated,
    /// The task is raced against the shutdown signal and dropped when it comes.
    Manual,
}

/// How a task is run.
#[derive(Clone, Copy, Debug, PartialEq, Eq, Structural)]
pub enum LaunchPlan {
    /// Await the task alone.
    AwaitTask,
    /// Await whichever comes first: the task or the shutdown signal (which
    /// then counts as a clean end).
    RaceWithShutdown,
}

/// How a task of the given type is run.
pub fn launch_plan(shutdown_type: ShutdownType) -> (r: LaunchPlan)
    ensures
        shutdown_type == ShutdownType::Integrated ==> r == LaunchPlan::AwaitTask,
        shutdown_type == ShutdownType::Manual ==> r == LaunchPlan::RaceWithShutdown,
{
    match shutdown_type {
        ShutdownType::Integrated => LaunchPlan::AwaitTask,
        ShutdownType::Manual => LaunchPlan::RaceWithShutdown,
    }
}

/// The names tasks were launched under, by task id.
pub struct TaskRegistry {
    names: HashMap<u64, String>,
}

/// The name held under `id`, if any.
pub open spec fn name_held(m: Map<u64, String>, id: u64) -> Option<String> {
    if m.contains_key(id) {
        Some(m[id])
    } else {
        None
    }
}

impl View for TaskRegistry {
    type V = Map<u64, String>;

    closed spec fn view(&self) -> Map<u64, String> {
        self.names@
    }
}

impl TaskRegistry {
    /// No names.
    pub fn new() -> (r: TaskRegistry)
        ensures
            r@ == Map::<u64, String>::empty(),
    {
        TaskRegistry { names: HashMap::new() }
    }

    /// Records that task `id` runs under `name`.
    pub fn store_task_name(&mut self, id: u64, name: String)
        ensures
            final(self)@ == old(self)@.insert(id, name),
    {
        self.names.insert(id, name);
    }

    /// The name task `id` runs under, if it was recorded.
    pub fn retrieve_task_name(&self, id: u64) -> (r: Option<String>)
        ensures
            r == name_held(self@, id),
    {
        match self.names.get(&id) {
            Some(name) => Some(name.clone()),
            None => None,
        }
    }
}

/// Law: the name recorded last for a task is the name it is found under;
/// recording a name leaves every other task's name as it was.
pub proof fn lemma_name_read_after_write(m: Map<u64, String>, id: u64, name: String, other: u64)
    ensures
        name_held(m.insert(id, name), id) == Some(name),
        other != id ==> name_held(m.insert(id, name), other) == name_held(m, other),
{
}

/// How a task ended.
#[derive(Clone, Copy, Debug, PartialEq, Eq, Structural)]
pub enum TaskEnd {
    /// It returned without error.
    Clean,
    /// It returned an error.
    Failed,
    /// It panicked or was cancelled.
    Died,
}

/// How loudly something is logged.
#[derive(Clone, Copy, Debug, PartialEq, Eq, Structural)]
pub enum LogLevel {
    Info,
    Warn,
    Error,
}

/// The level and message logged when a task ends in the given way.
pub open spec fn completion_entry(end: TaskEnd) -> (LogLevel, Seq<char>) {
    match end {
        TaskEnd::Clean => (LogLevel::Info, "Task shut down cleanly"@),
        TaskEnd::Failed => (LogLevel::Warn, "Task shut down with errors"@),
        TaskEnd::Died => (LogLevel::Warn, "Task died"@),
    }
}

/// The level and message to log when a task ends in the given way; the task's
/// name (and error, if any) go with it.
pub fn completion_log(end: TaskEnd) -> (r: (LogLevel, String))
    ensures
        (r.0, r.1@) == completion_entry(end),
{
    match end {
        TaskEnd::Clean => (LogLevel::Info, String::from_str("Task shut down cleanly")),
        TaskEnd::Failed => (LogLevel::Warn, String::from_str("Task shut down with errors")),
        TaskEnd::Died => (LogLevel::Warn, String::from_str("Task died")),
    }
}

/// Where a service's shutdown stands.
#[derive(Clone, Copy, Debug, PartialEq, Eq, Structural)]
pub enum Phase {
    /// Running: waiting for the first task to end.
    AwaitingFirst,
    /// Shutting down: the remaining tasks are being joined.
    Draining,
    /// Every task has been joined.
    Finished,
}

/// The shutdown's state: its phase, and whether the grace period still runs.
#[derive(Clone, Copy, Debug, PartialEq, Eq, Structural)]
pub struct ShutdownState {
    pub phase: Phase,
    pub timer_armed: bool,
}

/// What the service's shell reports back.
#[derive(Clone, Copy, Debug, PartialEq, Eq, Structural)]
pub enum ShutdownEvent {
    /// Joining the next task gave this end, or nothing when no task is left.
    Joined(Option<TaskEnd>),
    /// The shutdown signal could not be sent: nobody listens any more.
    BroadcastFailed,
    /// The grace period is over.
    GraceElapsed,
}

/// What the service's shell is to do next.
#[derive(Clone, Copy, Debug, PartialEq, Eq, Structural)]
pub enum ShutdownAction {
    /// Log that a task ended in this way.
    Log(TaskEnd),
    /// Send the shutdown signal to every task.
    Broadcast,
    /// Shut the remaining tasks down at once (the signal could not be sent).
    ShutdownSet,
    /// Abort every remaining task.
    AbortAll,
    /// Join the next task to end (the first time racing the grace period).
    JoinNext,
    /// Stop: every task has been joined.
    Stop,
}

/// The state a service starts in.
pub open spec fn initial_shutdown_state() -> ShutdownState {
    ShutdownState { phase: Phase::AwaitingFirst, timer_armed: false }
}

/// The actions that log an end, when there is one.
pub open spec fn log_of(end: Option<TaskEnd>) -> Seq<ShutdownAction> {
    match end {
        Some(e) => seq![ShutdownAction::Log(e)],
        None => Seq::<ShutdownAction>::empty(),
    }
}

/// One step of the shutdown: the next state and the actions to take.
pub open spec fn shutdown_step(s: ShutdownState, e: ShutdownEvent) -> (ShutdownState, Seq<ShutdownAction>) {
    match s.phase {
        Phase::AwaitingFirst => match e {
            ShutdownEvent::Joined(end) => (
                ShutdownState { phase: Phase::Draining, timer_armed: true },
                log_of(end) + seq![ShutdownAction::Broadcast, ShutdownAction::JoinNext],
            ),
            _ => (s, Seq::<ShutdownAction>::empty()),
        },
        Phase::Draining => match e {
            ShutdownEvent::Joined(Some(end)) => (s, seq![ShutdownAction::Log(end), ShutdownAction::JoinNext]),
            ShutdownEvent::Joined(None) => (
                ShutdownState { phase: Phase::Finished, timer_armed: false },
                seq![ShutdownAction::Stop],
            ),
            ShutdownEvent::BroadcastFailed => (s, seq![ShutdownAction::ShutdownSet, ShutdownAction::JoinNext]),
            ShutdownEvent::GraceElapsed => if s.timer_armed {
                (
                    ShutdownState { phase: Phase::Draining, timer_armed: false },
                    seq![ShutdownAction::AbortAll, ShutdownAction::Broadcast, ShutdownAction::JoinNext],
                )
            } else {
                (s, Seq::<ShutdownAction>::empty())
            },
        },
        Phase::Finished => (s, Seq::<ShutdownAction>::empty()),
    }
}

/// The state a service starts in: waiting for its first task to end.
pub fn initial_state() -> (r: ShutdownState)
    ensures
        r == initial_shutdown_state(),
{
    ShutdownState { phase: Phase::AwaitingFirst, timer_armed: false }
}

/// Takes one step of the shutdown.
pub fn step(s: ShutdownState, e: ShutdownEvent) -> (r: (ShutdownState, Vec<ShutdownAction>))
    ensures
        (r.0, r.1@) == shutdown_step(s, e),
{
    let mut actions: Vec<ShutdownAction> = Vec::new();
    match s.phase {
        Phase::AwaitingFirst => match e {
            ShutdownEvent::Joined(end) => {
                match end {
                    Some(x) => actions.push(ShutdownAction::Log(x)),
                    None => {},
                }
                actions.push(ShutdownAction::Broadcast);
                actions.push(ShutdownAction::JoinNext);
                proof {
                    assert(actions@ =~= log_of(end) + seq![ShutdownAction::Broadcast, ShutdownAction::JoinNext]);
                }
                (ShutdownState { phase: Phase::Draining, timer_armed: true }, actions)
            },
            _ => {
                proof {
                    assert(actions@ =~= Seq::<ShutdownAction>::empty());
                }
                (s, actions)
            },
        },
        Phase::Draining => match e {
            ShutdownEvent::Joined(Some(end)) => {
                actions.push(ShutdownAction::Log(end));
                actions.push(ShutdownAction::JoinNext);
                proof {
                    assert(actions@ =~= seq![ShutdownAction::Log(end), ShutdownAction::JoinNext]);
                }
                (s, actions)
            },
            ShutdownEvent::Joined(None) => {
                actions.push(ShutdownAction::Stop);
                proof {
                    assert(actions@ =~= seq![ShutdownAction::Stop]);
                }
                (ShutdownState { phase: Phase::Finished, timer_armed: false }, actions)
            },
            ShutdownEvent::BroadcastFailed => {
                actions.push(ShutdownAction::ShutdownSet);
                actions.push(ShutdownAction::JoinNext);
                proof {
                    assert(actions@ =~= seq![ShutdownAction::ShutdownSet, ShutdownAction::JoinNext]);
                }
                (s, actions)
            },
            ShutdownEvent::GraceElapsed => {
                if s.timer_armed {
                    actions.push(ShutdownAction::AbortAll);
                    actions.push(ShutdownAction::Broadcast);
                    actions.push(ShutdownAction::JoinNext);
                    proof {
                        assert(actions@ =~= seq![
                            ShutdownAction::AbortAll,
                            ShutdownAction::Broadcast,
                            ShutdownAction::JoinNext,
                        ]);
                    }
                    (ShutdownState { phase: Phase::Draining, timer_armed: false }, actions)
                } else {
                    proof {
                        assert(actions@ =~= Seq::<ShutdownAction>::empty());
                    }
                    (s, actions)
                }
            },
        },
        Phase::Finished => {
            proof {
                assert(actions@ =~= Seq::<ShutdownAction>::empty());
            }
            (s, actions)
        },
    }
}

/// Law: once shutdown has begun, a join that finds no task left finishes it
/// at once, whether or not the grace period still runs: nothing is aborted
/// and nothing more is joined.
pub proof fn lemma_empty_join_finishes(s: ShutdownState)
    requires
        s.phase == Phase::Draining,
    ensures
        shutdown_step(s, ShutdownEvent::Joined(None)).0.phase == Phase::Finished,
        !shutdown_step(s, ShutdownEvent::Joined(None)).0.timer_armed,
        shutdown_step(s, ShutdownEvent::Joined(None)).1 == seq![ShutdownAction::Stop],
{
}

/// Law: the shutdown finishes only through a join that finds no task left,
/// and then says `Stop`.
pub proof fn lemma_finishes_only_when_empty(s: ShutdownState, e: ShutdownEvent)
    requires
        s.phase != Phase::Finished,
        shutdown_step(s, e).0.phase == Phase::Finished,
    ensures
        e == ShutdownEvent::Joined(None),
        s.phase == Phase::Draining,
        shutdown_step(s, e).1.contains(ShutdownAction::Stop),
{
    assert(shutdown_step(s, e).1[0] == ShutdownAction::Stop);
}

/// Law: a finished shutdown stays finished and does nothing more.
pub proof fn lemma_finished_is_final(s: ShutdownState, e: ShutdownEvent)
    requires
        s.phase == Phase::Finished,
    ensures
        shutdown_step(s, e).0 == s,
        shutdown_step(s, e).1.len() == 0,
{
}

/// Law: the remaining tasks are aborted at most once: once the grace period
/// has run out, no later step aborts again or re-arms it.
pub proof fn lemma_abort_at_most_once(s: ShutdownState, e: ShutdownEvent)
    requires
        s.phase != Phase::AwaitingFirst,
        !s.timer_armed,
    ensures
        !shutdown_step(s, e).0.timer_armed,
        !shutdown_step(s, e).1.contains(ShutdownAction::AbortAll),
{
    let acts = shutdown_step(s, e).1;
    if acts.contains(ShutdownAction::AbortAll) {
        let i = choose|i: int| 0 <= i < acts.len() && acts[i] == ShutdownAction::AbortAll;
        assert(acts[i] == ShutdownAction::AbortAll);
    }
}

/// Law: shutdown is signalled as soon as the first task ends, and every task
/// end reported while draining is logged.
pub proof fn lemma_ends_are_logged(s: ShutdownState, end: TaskEnd)
    requires
        s.phase != Phase::Finished,
    ensures
        shutdown_step(s, ShutdownEvent::Joined(Some(end))).1.contains(ShutdownAction::Log(end)),
        s.phase == Phase::AwaitingFirst ==> shutdown_step(s, ShutdownEvent::Joined(Some(end))).1.contains(
            ShutdownAction::Broadcast,
        ),
{
    let acts = shutdown_step(s, ShutdownEvent::Joined(Some(end))).1;
    assert(acts[0] == ShutdownAction::Log(end));
    if s.phase == Phase::AwaitingFirst {
        assert(acts[1] == ShutdownAction::Broadcast);
    }
}

} // verus!
