//! Command-line client core for a fleet-management service suite: token
//! handling, request authentication, command routing, package target
//! expansion and result rendering.

pub mod auth_plus;
pub mod command;
pub mod config;
pub mod director;
pub mod error;
pub mod http;
pub mod keyed;
pub mod registry;
pub mod render;
pub mod reposerver;
pub mod text;
