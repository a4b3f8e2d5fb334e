pub mod user;
