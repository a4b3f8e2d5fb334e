pub mod memory;
pub mod user;
