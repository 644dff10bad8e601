use crate::containerisation::container_state::ContainerState;
use vstd::prelude::*;

verus! {

/// Whether a server stops accepting connections when woken with the shared state `state`: it
/// stops exactly when the container is shutting down. On stopping, once its connection handlers
/// have finished, it writes `ShuttingDown` so that the container follows it down.
pub fn server_should_stop(state: ContainerState) -> (stop: bool)
    ensures
        stop == (state == ContainerState::ShuttingDown),
{
    state == ContainerState::ShuttingDown
}

} // verus!
