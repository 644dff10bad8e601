pub mod client_broker;
pub mod container_state;
pub mod hyperion_container;
pub mod traits;
