//! The gateway's own users and their tokens.

pub mod jwt;
pub mod user;
