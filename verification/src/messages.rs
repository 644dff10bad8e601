pub mod client_broker_message;
pub mod container_directive;
pub mod heartbeat;
