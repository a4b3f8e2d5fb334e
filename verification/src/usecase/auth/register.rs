pub mod dto;
pub mod handler;
pub mod hasher;
pub mod laws;
pub mod mapper;
pub mod service;
pub mod validation;
