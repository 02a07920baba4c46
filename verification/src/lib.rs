//! Verified core of the connected-home services: token handling, password
//! checks, request routing and response building, configuration handling and
//! the decisions that the services' asynchronous shells act upon.

pub mod common;
pub mod consumer;
pub mod gateway;
pub mod grpc;
pub mod password;
pub mod producer;
pub mod token;
pub mod types;
pub mod user_service;
pub mod util;
