use crate::containerisation::container_state::{state_value, ContainerState};
use crate::heartbeat::config::{
    HeartbeatConfig, HeartbeatMode, HeartbeatReceiverConfig, HeartbeatSenderConfig,
};
use crate::heartbeat::sender::saturating_diff;
use crate::messages::container_directive::ContainerDirective;
use crate::messages::heartbeat::HeartbeatRequest;
use vstd::prelude::*;

verus! {

/// Which heartbeat task a container starts.
#[derive(Debug, Clone)]
pub enum HeartbeatRole {
    /// No heartbeat task.
    Inactive,
    /// A sender task with these settings.
    Sender(HeartbeatSenderConfig),
    /// A receiver task with these settings.
    Receiver(HeartbeatReceiverConfig),
}

/// The heartbeat task a container starts for `config`: a sender when the mode is `Sender` and
/// sender settings are given; a receiver when the mode is `Receiver`, receiver settings are given
/// and a timeout handler is supplied; none otherwise.
pub open spec fn role_for(config: Option<HeartbeatConfig>, has_timeout_handler: bool) -> HeartbeatRole {
    match config {
        None => HeartbeatRole::Inactive,
        Some(c) => match c.mode {
            HeartbeatMode::Sender => match c.sender {
                Some(s) => HeartbeatRole::Sender(s),
                None => HeartbeatRole::Inactive,
            },
            HeartbeatMode::Receiver => match c.receiver {
                Some(r) => if has_timeout_handler {
                    HeartbeatRole::Receiver(r)
                } else {
                    HeartbeatRole::Inactive
                },
                None => HeartbeatRole::Inactive,
            },
            HeartbeatMode::Disabled => HeartbeatRole::Inactive,
        },
    }
}

/// Chooses the heartbeat task a container starts (see `role_for`).
pub fn heartbeat_role(config: Option<HeartbeatConfig>, has_timeout_handler: bool) -> (role:
    HeartbeatRole)
    ensures
        role == role_for(config, has_timeout_handler),
{
    match config {
        None => HeartbeatRole::Inactive,
        Some(c) => match c.mode {
            HeartbeatMode::Sender => match c.sender {
                Some(s) => HeartbeatRole::Sender(s),
                None => HeartbeatRole::Inactive,
            },
            HeartbeatMode::Receiver => match c.receiver {
                Some(r) => if has_timeout_handler {
                    HeartbeatRole::Receiver(r)
                } else {
                    HeartbeatRole::Inactive
                },
                None => HeartbeatRole::Inactive,
            },
            HeartbeatMode::Disabled => HeartbeatRole::Inactive,
        },
    }
}

/// What the container's main loop does before it waits for the next message.
#[derive(Debug, Clone, Copy, PartialEq, Eq, Structural)]
pub enum ContainerStep {
    /// Mark the state `ShuttingDown`, let the tasks wind down, then mark it `Closed` and stop.
    Shutdown,
    /// The component has finished on its own: mark the state `DeadComponent`, then go on.
    MarkComponentDead,
    /// Go on waiting for messages.
    Proceed,
}

/// The main loop's step for a shared state value and whether the component task has finished.
pub open spec fn step_for(state_val: usize, component_finished: bool) -> ContainerStep {
    if state_val == state_value(ContainerState::ShuttingDown) || state_val == state_value(
        ContainerState::DeadComponent,
    ) {
        ContainerStep::Shutdown
    } else if component_finished {
        ContainerStep::MarkComponentDead
    } else {
        ContainerStep::Proceed
    }
}

/// Chooses the main loop's step (see `step_for`).
pub fn container_step(state_val: usize, component_finished: bool) -> (step: ContainerStep)
    ensures
        step == step_for(state_val, component_finished),
{
    if state_val == ContainerState::ShuttingDown.value() || state_val
        == ContainerState::DeadComponent.value() {
        ContainerStep::Shutdown
    } else if component_finished {
        ContainerStep::MarkComponentDead
    } else {
        ContainerStep::Proceed
    }
}

/// The states a step writes to the shared state, in order: a shutdown writes `ShuttingDown`, lets
/// the tasks wind down, then writes `Closed` and ends the loop; a dead component is marked
/// `DeadComponent`; otherwise nothing is written.
pub open spec fn step_states(step: ContainerStep) -> Seq<ContainerState> {
    match step {
        ContainerStep::Shutdown => seq![ContainerState::ShuttingDown, ContainerState::Closed],
        ContainerStep::MarkComponentDead => seq![ContainerState::DeadComponent],
        ContainerStep::Proceed => Seq::empty(),
    }
}

impl ContainerStep {
    /// The states this step writes, in order (see `step_states`).
    pub fn states_to_store(&self) -> (states: Vec<ContainerState>)
        ensures
            states@ == step_states(*self),
    {
        let mut states: Vec<ContainerState> = Vec::new();
        match self {
            ContainerStep::Shutdown => {
                states.push(ContainerState::ShuttingDown);
                states.push(ContainerState::Closed);
            },
            ContainerStep::MarkComponentDead => {
                states.push(ContainerState::DeadComponent);
            },
            ContainerStep::Proceed => {},
        }
        assert(states@ =~= step_states(*self));
        states
    }

    /// Whether the main loop ends after this step.
    pub fn ends_loop(&self) -> (b: bool)
        ensures
            b == (*self == ContainerStep::Shutdown),
    {
        match self {
            ContainerStep::Shutdown => true,
            _ => false,
        }
    }
}

/// Where the container sends an incoming message.
#[derive(Debug, Clone, Copy, PartialEq, Eq, Structural)]
pub enum MessageRoute {
    /// Enrich the heartbeat request and hand it to the receiver task.
    HeartbeatReceiver,
    /// Hand the heartbeat response to the sender task.
    HeartbeatSender,
    /// A heartbeat message with no task to take it: drop it.
    Discard,
    /// Mark the state `ShuttingDown`.
    Shutdown,
    /// Forward the shutdown to every client, mark the state `ShuttingDown`, then close the clients.
    SystemShutdown,
    /// A directive the container does not act on: log it and drop it.
    UnmappedDirective,
    /// Not a framework message: forward it to the component.
    Component,
}

/// One thing the container does with an incoming message.
#[derive(Debug, Clone, Copy, PartialEq, Eq, Structural)]
pub enum ContainerAction {
    /// Enrich the heartbeat request and hand it to the receiver task.
    PassToHeartbeatReceiver,
    /// Hand the heartbeat response to the sender task.
    PassToHeartbeatSender,
    /// Send a copy of the message to every client and stop messaging.
    ForwardToAllClients,
    /// Write this state to the shared state.
    StoreState(ContainerState),
    /// Wake every task that waits for a change of the shared state.
    NotifyWaiters,
    /// Wait for every client task to finish and drop the clients.
    CloseClients,
    /// Report a directive the container does not act on.
    ReportUnmapped,
    /// Hand the message to the component.
    PassToComponent,
}

/// What the container does for a route, in order. A system shutdown reaches every client before
/// the state becomes `ShuttingDown`, then the waiters are woken, then the clients are closed; a
/// shutdown only writes the state and wakes the waiters; a dropped message does nothing.
pub open spec fn route_actions_for(route: MessageRoute) -> Seq<ContainerAction> {
    match route {
        MessageRoute::HeartbeatReceiver => seq![ContainerAction::PassToHeartbeatReceiver],
        MessageRoute::HeartbeatSender => seq![ContainerAction::PassToHeartbeatSender],
        MessageRoute::Discard => Seq::empty(),
        MessageRoute::Shutdown => seq![
            ContainerAction::StoreState(ContainerState::ShuttingDown),
            ContainerAction::NotifyWaiters,
        ],
        MessageRoute::SystemShutdown => seq![
            ContainerAction::ForwardToAllClients,
            ContainerAction::StoreState(ContainerState::ShuttingDown),
            ContainerAction::NotifyWaiters,
            ContainerAction::CloseClients,
        ],
        MessageRoute::UnmappedDirective => seq![ContainerAction::ReportUnmapped],
        MessageRoute::Component => seq![ContainerAction::PassToComponent],
    }
}

impl MessageRoute {
    /// What the container does for this route, in order (see `route_actions_for`).
    pub fn actions(&self) -> (actions: Vec<ContainerAction>)
        ensures
            actions@ == route_actions_for(*self),
    {
        let mut actions: Vec<ContainerAction> = Vec::new();
        match self {
            MessageRoute::HeartbeatReceiver => {
                actions.push(ContainerAction::PassToHeartbeatReceiver);
            },
            MessageRoute::HeartbeatSender => {
                actions.push(ContainerAction::PassToHeartbeatSender);
            },
            MessageRoute::Discard => {},
            MessageRoute::Shutdown => {
                actions.push(ContainerAction::StoreState(ContainerState::ShuttingDown));
                actions.push(ContainerAction::NotifyWaiters);
            },
            MessageRoute::SystemShutdown => {
                actions.push(ContainerAction::ForwardToAllClients);
                actions.push(ContainerAction::StoreState(ContainerState::ShuttingDown));
                actions.push(ContainerAction::NotifyWaiters);
                actions.push(ContainerAction::CloseClients);
            },
            MessageRoute::UnmappedDirective => {
                actions.push(ContainerAction::ReportUnmapped);
            },
            MessageRoute::Component => {
                actions.push(ContainerAction::PassToComponent);
            },
        }
        assert(actions@ =~= route_actions_for(*self));
        actions
    }
}

/// A system shutdown is forwarded to every client before the state becomes `ShuttingDown`, the
/// waiters are woken after that, and the clients are closed last; the component never gets it.
pub proof fn lemma_system_shutdown_order()
    ensures
        ({
            let a = route_actions_for(MessageRoute::SystemShutdown);
            &&& a.len() == 4
            &&& a[0] == ContainerAction::ForwardToAllClients
            &&& a[1] == ContainerAction::StoreState(ContainerState::ShuttingDown)
            &&& a[2] == ContainerAction::NotifyWaiters
            &&& a[3] == ContainerAction::CloseClients
            &&& !a.contains(ContainerAction::PassToComponent)
        }),
{
    let a = route_actions_for(MessageRoute::SystemShutdown);
    assert(!a.contains(ContainerAction::PassToComponent)) by {
        if a.contains(ContainerAction::PassToComponent) {
            let i = choose|i: int| 0 <= i < a.len() && a[i] == ContainerAction::PassToComponent;
        }
    }
}

/// Whether a directive asks for a shutdown of this container.
pub open spec fn is_shutdown(d: ContainerDirective) -> bool {
    d is Shutdown
}

/// Where an incoming message goes. Heartbeat requests and responses come first and stay with the
/// container; then directives; everything else goes to the component.
pub open spec fn route_for(
    is_heartbeat_request: bool,
    is_heartbeat_response: bool,
    directive: Option<ContainerDirective>,
    has_request_channel: bool,
    has_response_channel: bool,
) -> MessageRoute {
    if is_heartbeat_request {
        if has_request_channel {
            MessageRoute::HeartbeatReceiver
        } else {
            MessageRoute::Discard
        }
    } else if is_heartbeat_response {
        if has_response_channel {
            MessageRoute::HeartbeatSender
        } else {
            MessageRoute::Discard
        }
    } else {
        match directive {
            Some(ContainerDirective::Shutdown) => MessageRoute::Shutdown,
            Some(ContainerDirective::SystemShutdown) => MessageRoute::SystemShutdown,
            Some(_) => MessageRoute::UnmappedDirective,
            None => MessageRoute::Component,
        }
    }
}

/// Chooses where an incoming message goes (see `route_for`), from what the message type reports
/// of it: whether it is a heartbeat request or response and which directive it carries, if any.
pub fn route_message(
    is_heartbeat_request: bool,
    is_heartbeat_response: bool,
    directive: Option<&ContainerDirective>,
    has_request_channel: bool,
    has_response_channel: bool,
) -> (route: MessageRoute)
    ensures
        route == route_for(
            is_heartbeat_request,
            is_heartbeat_response,
            match directive {
                Some(d) => Some(*d),
                None => None,
            },
            has_request_channel,
            has_response_channel,
        ),
        is_heartbeat_request ==> route == (if has_request_channel {
            MessageRoute::HeartbeatReceiver
        } else {
            MessageRoute::Discard
        }),
        !is_heartbeat_request && is_heartbeat_response ==> route == (if has_response_channel {
            MessageRoute::HeartbeatSender
        } else {
            MessageRoute::Discard
        }),
        !is_heartbeat_request && !is_heartbeat_response ==> route == match directive {
            Some(ContainerDirective::Shutdown) => MessageRoute::Shutdown,
            Some(ContainerDirective::SystemShutdown) => MessageRoute::SystemShutdown,
            Some(_) => MessageRoute::UnmappedDirective,
            None => MessageRoute::Component,
        },
{
    if is_heartbeat_request {
        if has_request_channel {
            MessageRoute::HeartbeatReceiver
        } else {
            MessageRoute::Discard
        }
    } else if is_heartbeat_response {
        if has_response_channel {
            MessageRoute::HeartbeatSender
        } else {
            MessageRoute::Discard
        }
    } else {
        match directive {
            Some(ContainerDirective::Shutdown) => MessageRoute::Shutdown,
            Some(ContainerDirective::SystemShutdown) => MessageRoute::SystemShutdown,
            Some(_) => MessageRoute::UnmappedDirective,
            None => MessageRoute::Component,
        }
    }
}

/// A heartbeat request completed with what only the container observes: whether the component
/// task is still running, how long since the component last sent anything (0 when the clock reads
/// earlier), and the shared state value.
pub fn enrich_heartbeat_request(
    request_id: u64,
    sender_name: String,
    timestamp_ms: u64,
    component_finished: bool,
    now_ms: u64,
    last_activity_ms: u64,
    container_state_val: usize,
) -> (r: HeartbeatRequest)
    ensures
        r.request_id == request_id,
        r.sender_name == sender_name,
        r.timestamp_ms == timestamp_ms,
        r.component_alive == !component_finished,
        r.ms_since_last_activity == saturating_diff(now_ms, last_activity_ms),
        r.container_state_val == container_state_val,
{
    let ms_since_last_activity: u64 = if now_ms >= last_activity_ms {
        now_ms - last_activity_ms
    } else {
        0
    };
    HeartbeatRequest {
        request_id,
        sender_name,
        timestamp_ms,
        component_alive: !component_finished,
        ms_since_last_activity,
        container_state_val,
    }
}

/// Heartbeat messages are handled by the container and never reach the component.
pub proof fn lemma_heartbeats_never_reach_component(
    is_heartbeat_request: bool,
    is_heartbeat_response: bool,
    directive: Option<ContainerDirective>,
    has_request_channel: bool,
    has_response_channel: bool,
)
    requires
        is_heartbeat_request || is_heartbeat_response,
    ensures
        route_for(
            is_heartbeat_request,
            is_heartbeat_response,
            directive,
            has_request_channel,
            has_response_channel,
        ) != MessageRoute::Component,
{
}

/// A heartbeat request goes to the heartbeat receiver task when the container has one and is
/// dropped otherwise, and a heartbeat response likewise goes to the sender task, whatever
/// directive the message also carries: heartbeats travel as directives, and they are never taken
/// for a shutdown or an unmapped directive.
pub proof fn lemma_heartbeat_route_ignores_directive(
    is_heartbeat_response: bool,
    directive: Option<ContainerDirective>,
    other_directive: Option<ContainerDirective>,
    has_request_channel: bool,
    has_response_channel: bool,
)
    ensures
        route_for(true, is_heartbeat_response, directive, has_request_channel, has_response_channel)
            == (if has_request_channel {
            MessageRoute::HeartbeatReceiver
        } else {
            MessageRoute::Discard
        }),
        route_for(false, true, directive, has_request_channel, has_response_channel) == (
        if has_response_channel {
            MessageRoute::HeartbeatSender
        } else {
            MessageRoute::Discard
        }),
        route_for(true, is_heartbeat_response, directive, has_request_channel, has_response_channel)
            == route_for(
            true,
            is_heartbeat_response,
            other_directive,
            has_request_channel,
            has_response_channel,
        ),
        route_for(false, true, directive, has_request_channel, has_response_channel) == route_for(
            false,
            true,
            other_directive,
            has_request_channel,
            has_response_channel,
        ),
{
}

/// A component that has finished on its own brings the container down: the step marks it
/// dead, and from the dead state the next step is a shutdown, whatever the component does.
pub proof fn lemma_dead_component_leads_to_shutdown(component_finished: bool)
    ensures
        step_for(state_value(ContainerState::Running) as usize, true) == ContainerStep::MarkComponentDead,
        step_for(state_value(ContainerState::DeadComponent) as usize, component_finished)
            == ContainerStep::Shutdown,
        step_for(state_value(ContainerState::ShuttingDown) as usize, component_finished)
            == ContainerStep::Shutdown,
{
}

/// The main loop writes no state but `DeadComponent`, `ShuttingDown` and `Closed`, and never
/// `Running`; the messages it routes write only `ShuttingDown`. Seeing `ShuttingDown` or
/// `DeadComponent` it writes `ShuttingDown`, then `Closed`, and ends; it ends in no other step.
pub proof fn lemma_run_loop_state_writes(
    state_val: usize,
    component_finished: bool,
    route: MessageRoute,
)
    ensures
        forall|i: int|
            0 <= i < step_states(step_for(state_val, component_finished)).len() ==> {
                let s = #[trigger] step_states(step_for(state_val, component_finished))[i];
                s == ContainerState::DeadComponent || s == ContainerState::ShuttingDown || s
                    == ContainerState::Closed
            },
        forall|i: int|
            0 <= i < route_actions_for(route).len() ==> (#[trigger] route_actions_for(route)[i]
                matches ContainerAction::StoreState(s) ==> s == ContainerState::ShuttingDown),
        (state_val == state_value(ContainerState::ShuttingDown) || state_val == state_value(
            ContainerState::DeadComponent,
        )) ==> step_states(step_for(state_val, component_finished)) == seq![
            ContainerState::ShuttingDown,
            ContainerState::Closed,
        ],
        step_for(state_val, component_finished) == ContainerStep::Shutdown ==> step_states(
            step_for(state_val, component_finished),
        ).last() == ContainerState::Closed,
{
}

/// Without a timeout handler to call, a container never starts a receiver task.
pub proof fn lemma_receiver_needs_handler(config: Option<HeartbeatConfig>)
    ensures
        !(role_for(config, false) is Receiver),
{
}

/// The configurations the constructors build start the task they name: a sender
/// configuration starts a sender with its settings, a receiver configuration starts a receiver
/// when a timeout handler is supplied, and a disabled one starts nothing.
pub proof fn lemma_built_configs_start_their_task(
    sender: HeartbeatConfig,
    receiver: HeartbeatConfig,
    disabled: HeartbeatConfig,
    interval_ms: u64,
    response_timeout_ms: u64,
    targets: Seq<Seq<char>>,
    timeout_ms: u64,
    has_timeout_handler: bool,
)
    requires
        crate::heartbeat::config::is_sender_config(sender, interval_ms, response_timeout_ms, targets),
        crate::heartbeat::config::is_receiver_config(receiver, timeout_ms),
        disabled.mode == HeartbeatMode::Disabled,
    ensures
        role_for(Some(sender), has_timeout_handler) matches HeartbeatRole::Sender(s) && s
            == sender.sender->0 && s.interval_ms == interval_ms && s.response_timeout_ms
            == response_timeout_ms,
        has_timeout_handler ==> (role_for(Some(receiver), has_timeout_handler) matches HeartbeatRole::Receiver(r)
            && r.timeout_ms == timeout_ms),
        role_for(Some(disabled), has_timeout_handler) is Inactive,
        role_for(None, has_timeout_handler) is Inactive,
{
}

} // verus!
