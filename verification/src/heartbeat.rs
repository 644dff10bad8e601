pub mod config;
pub mod handler;
pub mod receiver;
pub mod sender;
