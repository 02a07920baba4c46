//! The MQTT consumer's configuration and its HTTP server.

use vstd::prelude::*;

use crate::common::config::{MetricsConfig, ServerConfig, TracingConfig};
use crate::common::mqtt::MqttConfig;

verus! {

/// The consumer's configuration.
#[derive(Clone, Debug)]
pub struct Config {
    pub server: ServerConfig,
    pub metrics: MetricsConfig,
    pub tracing: TracingConfig,
    pub mqtt: MqttConfig,
}

/// The consumer's HTTP server, which serves its metrics.
pub struct Server {}

} // verus!
