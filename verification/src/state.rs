//! The coarse lifecycle state of the service and the cell that publishes it.

use vstd::prelude::*;

verus! {

/// Where the service is in its life.
#[derive(Clone, Copy, Debug, PartialEq, Eq, Structural)]
pub enum ServiceState {
    Starting,
    Running,
    Stopping,
    Stopped,
}

impl ServiceState {
    /// The position of a state in the order Starting, Running, Stopping, Stopped.
    pub open spec fn rank(self) -> nat {
        match self {
            ServiceState::Starting => 0,
            ServiceState::Running => 1,
            ServiceState::Stopping => 2,
            ServiceState::Stopped => 3,
        }
    }

    /// The forward transitions of an orderly life: one step along the order.
    pub open spec fn precedes(self, next: ServiceState) -> bool {
        next.rank() == self.rank() + 1
    }

    /// Whether `next` directly follows `self` in an orderly life.
    pub fn is_followed_by(self, next: ServiceState) -> (b: bool)
        ensures
            b == self.precedes(next),
    {
        match (self, next) {
            (ServiceState::Starting, ServiceState::Running) => true,
            (ServiceState::Running, ServiceState::Stopping) => true,
            (ServiceState::Stopping, ServiceState::Stopped) => true,
            _ => false,
        }
    }

    /// Whether no further transition is expected.
    pub fn is_terminal(self) -> (b: bool)
        ensures
            b == (self == ServiceState::Stopped),
    {
        match self {
            ServiceState::Stopped => true,
            _ => false,
        }
    }
}

/// The external events that ask the service to stop. Both mean the same.
#[derive(Clone, Copy, Debug, PartialEq, Eq, Structural)]
pub enum ShutdownSignal {
    Interrupt,
    Terminate,
}

/// A single cell holding the current [`ServiceState`].
///
/// `update` overwrites without judging the transition; reading never blocks.
#[derive(Debug)]
pub struct ServiceStateManager {
    state: ServiceState,
}

impl View for ServiceStateManager {
    type V = ServiceState;

    closed spec fn view(&self) -> ServiceState {
        self.state
    }
}

impl ServiceStateManager {
    /// A manager for a service that has just been entered.
    pub fn new() -> (m: Self)
        ensures
            m@ == ServiceState::Starting,
    {
        ServiceStateManager { state: ServiceState::Starting }
    }

    /// Replaces the published state, whatever it was.
    pub fn update(&mut self, new_state: ServiceState)
        ensures
            final(self)@ == new_state,
    {
        self.state = new_state;
    }

    /// The state as last published.
    pub fn current_state(&self) -> (s: ServiceState)
        ensures
            s == self@,
    {
        self.state
    }
}

} // verus!
