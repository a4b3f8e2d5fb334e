pub mod register;
