//! Types shared between the gateway and the gRPC client.

pub mod jwt;
