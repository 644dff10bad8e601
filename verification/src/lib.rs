pub mod containerisation;
pub mod heartbeat;
pub mod logging;
pub mod messages;
pub mod network;
pub mod utilities;
