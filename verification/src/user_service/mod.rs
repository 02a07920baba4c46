//! The user service: registration, login and profiles over gRPC, backed by
//! a Postgres table of users.

pub mod config;
pub mod handlers;
pub mod repo;
pub mod user;
