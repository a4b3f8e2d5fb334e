pub mod error_logger;
