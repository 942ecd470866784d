//! Shloss: a small authentication server. This crate holds its verified core:
//! secret hashing and token generation, the in-memory store of service keys and
//! service tokens, configuration checks, and the decisions taken while serving
//! requests.

pub mod api;
pub mod auth;
pub mod cli;
pub mod client;
pub mod config;
pub mod crypto;
pub mod error;
pub mod jwt;
pub mod server;
pub mod text;
pub mod time;
pub mod types;
