//! MQTT broker settings and the subscriptions a consumer makes.

use vstd::prelude::*;

verus! {

/// Delivery guarantee of an MQTT message.
#[derive(Clone, Copy, Debug, PartialEq, Eq, Structural)]
pub enum QoS {
    AtMostOnce,
    AtLeastOnce,
    ExactlyOnce,
}

/// A subscription: a topic and the delivery guarantee asked for.
#[derive(Clone, Debug)]
pub struct SubscribeFilter {
    pub path: String,
    pub qos: QoS,
}

/// The settings an MQTT client connects with.
#[derive(Clone, Debug)]
pub struct MqttOptions {
    pub client_id: String,
    pub broker_host: String,
    pub broker_port: u16,
    pub credentials: Option<(String, String)>,
    pub keep_alive_secs: u64,
}

/// The broker and the topics a service uses.
#[derive(Clone, Debug)]
pub struct MqttConfig {
    pub host: String,
    pub port: u16,
    pub username: String,
    pub password: String,
    pub client_id: String,
    pub topics: Vec<String>,
}

/// An MQTT client id the client accepts: not empty, not starting with a space.
pub open spec fn valid_client_id(id: Seq<char>) -> bool {
    id.len() > 0 && id[0] != ' '
}

/// The keep-alive interval, in seconds, that clients use.
pub open spec fn keep_alive_secs() -> u64 {
    5
}

impl MqttConfig {
    /// The client settings: this client id, this broker, these credentials,
    /// and a keep-alive of five seconds.
    pub fn options(&self) -> (r: MqttOptions)
        requires
            valid_client_id(self.client_id@),
        ensures
            r.client_id == self.client_id,
            r.broker_host == self.host,
            r.broker_port == self.port,
            r.credentials == Some((self.username, self.password)),
            r.keep_alive_secs == keep_alive_secs(),
    {
        MqttOptions {
            client_id: self.client_id.clone(),
            broker_host: self.host.clone(),
            broker_port: self.port,
            credentials: Some((self.username.clone(), self.password.clone())),
            keep_alive_secs: 5,
        }
    }

    /// One subscription per configured topic, in order, each asking for
    /// at-least-once delivery.
    pub fn sub_filters(&self) -> (r: Vec<SubscribeFilter>)
        ensures
            r@.len() == self.topics@.len(),
            forall|i: int|
                0 <= i < r@.len() ==> (#[trigger] r@[i]).path == self.topics@[i] && r@[i].qos
                    == QoS::AtLeastOnce,
    {
        let mut r: Vec<SubscribeFilter> = Vec::new();
        let n = self.topics.len();
        for i in 0..n
            invariant
                n == self.topics@.len(),
                r@.len() == i,
                forall|j: int|
                    0 <= j < i ==> (#[trigger] r@[j]).path == self.topics@[j] && r@[j].qos
                        == QoS::AtLeastOnce,
        {
            r.push(SubscribeFilter { path: self.topics[i].clone(), qos: QoS::AtLeastOnce });
        }
        r
    }
}

} // verus!
