pub mod logging_service;
