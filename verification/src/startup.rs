//! From process start to serving.
//!
//! The service reads its configuration, builds the connection pool and binds
//! its socket, in this order, and serves only when all three went well. The
//! driver does the work and reports each outcome; the state says what comes
//! next, and a failure is final.

use crate::error::StartupError;
use vstd::prelude::*;

verus! {

/// Where the process stands.
#[derive(Clone, Copy, Debug, PartialEq, Eq, Structural)]
pub enum Lifecycle {
    /// Reading the configuration and assembling the route table.
    Configuring,
    /// Building the connection pool.
    BuildingPool,
    /// Binding the listening socket.
    Binding,
    /// Accepting connections.
    Serving,
    /// Startup failed; the process exits.
    Failed(StartupError),
}

/// What the driver reports of one startup task.
#[derive(Clone, Copy, Debug, PartialEq, Eq, Structural)]
pub enum StartupEvent {
    Configured,
    ConfigurationRejected,
    PoolBuilt,
    PoolRejected,
    Bound,
    BindRejected,
}

/// The state after an event. Each task's success leads to the next task and
/// its failure to `Failed`; an event that does not belong to the task at
/// hand changes nothing.
pub open spec fn after(state: Lifecycle, event: StartupEvent) -> Lifecycle {
    match (state, event) {
        (Lifecycle::Configuring, StartupEvent::Configured) => Lifecycle::BuildingPool,
        (Lifecycle::Configuring, StartupEvent::ConfigurationRejected) => Lifecycle::Failed(
            StartupError::BadConfiguration,
        ),
        (Lifecycle::BuildingPool, StartupEvent::PoolBuilt) => Lifecycle::Binding,
        (Lifecycle::BuildingPool, StartupEvent::PoolRejected) => Lifecycle::Failed(
            StartupError::PoolFailed,
        ),
        (Lifecycle::Binding, StartupEvent::Bound) => Lifecycle::Serving,
        (Lifecycle::Binding, StartupEvent::BindRejected) => Lifecycle::Failed(
            StartupError::BindFailed,
        ),
        _ => state,
    }
}

/// The state after a sequence of events.
pub open spec fn after_all(state: Lifecycle, events: Seq<StartupEvent>) -> Lifecycle
    decreases events.len(),
{
    if events.len() == 0 {
        state
    } else {
        after(after_all(state, events.drop_last()), events.last())
    }
}

/// The exit status of a process in this state: none while it runs, and 1
/// where startup failed.
pub open spec fn exit_status(state: Lifecycle) -> Option<i32> {
    match state {
        Lifecycle::Failed(_) => Some(1),
        _ => None,
    }
}

impl Lifecycle {
    /// The state in which every process begins.
    pub fn begin() -> (out: Lifecycle)
        ensures
            out == Lifecycle::Configuring,
    {
        Lifecycle::Configuring
    }

    /// The state after `event`.
    pub fn on(self, event: StartupEvent) -> (out: Lifecycle)
        ensures
            out == after(self, event),
    {
        match self {
            Lifecycle::Configuring => match event {
                StartupEvent::Configured => Lifecycle::BuildingPool,
                StartupEvent::ConfigurationRejected => Lifecycle::Failed(
                    StartupError::BadConfiguration,
                ),
                _ => self,
            },
            Lifecycle::BuildingPool => match event {
                StartupEvent::PoolBuilt => Lifecycle::Binding,
                StartupEvent::PoolRejected => Lifecycle::Failed(StartupError::PoolFailed),
                _ => self,
            },
            Lifecycle::Binding => match event {
                StartupEvent::Bound => Lifecycle::Serving,
                StartupEvent::BindRejected => Lifecycle::Failed(StartupError::BindFailed),
                _ => self,
            },
            _ => self,
        }
    }

    /// Whether the process accepts connections.
    pub fn is_serving(&self) -> (out: bool)
        ensures
            out == (*self == Lifecycle::Serving),
    {
        match self {
            Lifecycle::Serving => true,
            _ => false,
        }
    }

    /// The status with which the process exits, if startup failed.
    pub fn exit_code(&self) -> (out: Option<i32>)
        ensures
            out == exit_status(*self),
            out matches Some(code) ==> code != 0,
    {
        match self {
            Lifecycle::Failed(_) => Some(1),
            _ => None,
        }
    }
}

/// A failure is final: whatever is reported after it, the state stays the
/// same failure, the process never serves, and it exits with a status other
/// than zero.
pub proof fn lemma_failure_is_final(error: StartupError, events: Seq<StartupEvent>)
    ensures
        after_all(Lifecycle::Failed(error), events) == Lifecycle::Failed(error),
        after_all(Lifecycle::Failed(error), events) != Lifecycle::Serving,
        exit_status(after_all(Lifecycle::Failed(error), events)) matches Some(code) && code != 0,
    decreases events.len(),
{
    if events.len() > 0 {
        lemma_failure_is_final(error, events.drop_last());
    }
}

/// A socket that cannot be bound ends the startup: the state is a failure at
/// once, and no later event brings the process to serve.
pub proof fn lemma_bind_failure_never_serves(events: Seq<StartupEvent>)
    ensures
        after(Lifecycle::Binding, StartupEvent::BindRejected) == Lifecycle::Failed(
            StartupError::BindFailed,
        ),
        after_all(after(Lifecycle::Binding, StartupEvent::BindRejected), events)
            != Lifecycle::Serving,
        exit_status(after_all(after(Lifecycle::Binding, StartupEvent::BindRejected), events))
            == Some(1i32),
{
    lemma_failure_is_final(StartupError::BindFailed, events);
}

/// The process serves only after a successful bind, and binds only after
/// the configuration was read and the pool was built.
pub proof fn lemma_serving_needs_every_task(state: Lifecycle, event: StartupEvent)
    ensures
        after(state, event) == Lifecycle::Serving && state != Lifecycle::Serving ==> state
            == Lifecycle::Binding && event == StartupEvent::Bound,
        after(state, event) == Lifecycle::Binding && state != Lifecycle::Binding ==> state
            == Lifecycle::BuildingPool && event == StartupEvent::PoolBuilt,
        after(state, event) == Lifecycle::BuildingPool && state != Lifecycle::BuildingPool
            ==> state == Lifecycle::Configuring && event == StartupEvent::Configured,
{
}

} // verus!
