//! Settings of the service, as read from `config.toml`.

use vstd::prelude::*;

verus! {

/// Settings of the service.
pub struct Config {
    /// The channel whose events are relayed.
    pub broadcaster_id: String,
    /// Names of the subscription types to relay.
    pub events: Vec<String>,
    pub rabbit_mq: RabbitMQ,
    /// `AppKeys` in the file.
    pub app_keys: AppKeys,
}

/// Where relayed events are published.
pub struct RabbitMQ {
    pub rabbit_mq_url: String,
    pub exchange_name: String,
    pub routing_key: String,
}

/// Credentials of the Twitch application.
pub struct AppKeys {
    pub client_id: String,
    pub client_secret: String,
}

} // verus!
