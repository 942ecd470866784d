//! Authentication of services and users.

pub mod login;
pub mod register;
pub mod service;
pub mod token;
