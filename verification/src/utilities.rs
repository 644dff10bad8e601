pub mod backoff;
pub mod time;
pub mod tx_sender;
