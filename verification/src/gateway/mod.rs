//! The API gateway: request routing, response building, and the decisions
//! taken on what the user service or the database answered.

pub mod api;
pub mod config;
pub mod countries;
pub mod layer;
pub mod legacy;
pub mod realm;
pub mod rpc;
pub mod users;
