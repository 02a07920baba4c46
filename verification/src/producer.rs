//! The energy monitor's configuration.

use vstd::prelude::*;

use crate::common::config::{MetricsConfig, TracingConfig};
use crate::common::mqtt::MqttConfig;

verus! {

/// The producer's configuration.
#[derive(Clone, Debug)]
pub struct Config {
    pub metrics: MetricsConfig,
    pub tracing: TracingConfig,
    pub mqtt: MqttConfig,
}

} // verus!
