//! The gateway's configuration.

use vstd::prelude::*;

use crate::common::config::{MetricsConfig, ServerConfig, TracingConfig};

verus! {

/// Where the services the gateway calls are.
#[derive(Clone, Debug)]
pub struct RemoteConfig {
    pub user_service: String,
}

/// The gateway's configuration.
#[derive(Clone, Debug)]
pub struct Config {
    pub server: ServerConfig,
    pub metrics: MetricsConfig,
    pub tracing: TracingConfig,
    pub remote: RemoteConfig,
}

} // verus!
