//! What the services share: token checks, errors, REST error bodies, health
//! probes, configuration and the task life cycle.

pub mod auth;
pub mod cli;
pub mod config;
pub mod error;
pub mod mqtt;
pub mod probes;
pub mod repo;
pub mod rest;
pub mod task;
