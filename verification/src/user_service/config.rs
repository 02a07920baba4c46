//! The user service's configuration, and its servers.

use vstd::prelude::*;

use crate::common::config::{MetricsConfig, ServerConfig, TracingConfig};
use crate::common::repo::PostgresConfig;

verus! {

/// Where the services the user service calls are: none so far.
#[derive(Clone, Debug)]
pub struct RemoteConfig {}

/// The user service's configuration.
#[derive(Clone, Debug)]
pub struct Config {
    pub http_server: ServerConfig,
    pub grpc_server: ServerConfig,
    pub metrics: MetricsConfig,
    pub tracing: TracingConfig,
    pub remote: RemoteConfig,
    pub postgres: PostgresConfig,
}

/// The gRPC server of the user service.
pub struct GrpcServer {}

} // verus!
