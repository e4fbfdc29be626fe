//! Deploy lifecycle of a hosted service: resolving a service by name,
//! triggering a deploy, and following its status until it settles.

pub mod api;
pub mod config;
pub mod model;
pub mod poller;
pub mod status;
pub mod text;
