use vstd::prelude::*;

verus! {

/// Lifecycle state of a container, shared between the container, its component, its server and
/// its clients as a plain integer.
#[derive(Debug, Clone, Copy, PartialEq, Eq, Structural)]
pub enum ContainerState {
    /// Container is running.
    Running,
    /// Container has missing connections which can be restarted.
    MissingConnections,
    /// Component is dead but can be restarted.
    DeadComponent,
    /// Container is closing.
    ShuttingDown,
    /// Container is closed and cannot be restarted.
    Closed,
}

/// The integer under which each state is shared.
pub open spec fn state_value(s: ContainerState) -> nat {
    match s {
        ContainerState::Running => 0,
        ContainerState::MissingConnections => 1,
        ContainerState::DeadComponent => 2,
        ContainerState::ShuttingDown => 3,
        ContainerState::Closed => 4,
    }
}

/// Whether an integer names one of the states.
pub open spec fn is_state_value(v: int) -> bool {
    0 <= v <= 4
}

impl ContainerState {
    /// The state that the shared integer `value` names. Every value above 4 names no state.
    pub fn from(value: usize) -> (s: ContainerState)
        requires
            is_state_value(value as int),
        ensures
            state_value(s) == value,
    {
        if value == 0 {
            ContainerState::Running
        } else if value == 1 {
            ContainerState::MissingConnections
        } else if value == 2 {
            ContainerState::DeadComponent
        } else if value == 3 {
            ContainerState::ShuttingDown
        } else {
            ContainerState::Closed
        }
    }

    /// The shared integer of this state.
    pub fn value(&self) -> (v: usize)
        ensures
            v == state_value(*self),
    {
        match self {
            ContainerState::Running => 0,
            ContainerState::MissingConnections => 1,
            ContainerState::DeadComponent => 2,
            ContainerState::ShuttingDown => 3,
            ContainerState::Closed => 4,
        }
    }
}

/// Reading a state back from its shared integer gives the same state.
pub proof fn lemma_state_value_round_trip(s: ContainerState)
    ensures
        is_state_value(state_value(s) as int),
        forall|t: ContainerState| state_value(t) == state_value(s) ==> t == s,
{
}

} // verus!
