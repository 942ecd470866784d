//! The decisions of the request handlers: which operations a request needs,
//! and how their outcomes are answered.

pub mod auth;
pub mod refresh;
pub mod token;
pub mod users;
