//! The failures that either role can end with.

use vstd::prelude::*;
use vstd::string::*;

verus! {

/// A setting that the client role reads from the configuration document.
#[derive(Clone, Copy, Debug, PartialEq, Eq, Structural)]
pub enum SettingKey {
    ClientId,
    Listen,
    KeepAliveSeconds,
    SubscribeTopic,
    PublishTopic,
    Qos,
    PublishCount,
    PublishIntervalMs,
}

impl SettingKey {
    /// The path under which the setting stands in the document.
    pub open spec fn path_spec(self) -> Seq<char> {
        match self {
            SettingKey::ClientId => "client.client_id"@,
            SettingKey::Listen => "v4.1.listen"@,
            SettingKey::KeepAliveSeconds => "client.keep_alive_seconds"@,
            SettingKey::SubscribeTopic => "client.subscribe_topic"@,
            SettingKey::PublishTopic => "client.publish_topic"@,
            SettingKey::Qos => "client.qos"@,
            SettingKey::PublishCount => "client.publish_count"@,
            SettingKey::PublishIntervalMs => "client.publish_interval_ms"@,
        }
    }

    /// The path under which the setting stands in the document.
    pub fn path(self) -> (path: &'static str)
        ensures
            path@ == self.path_spec(),
    {
        match self {
            SettingKey::ClientId => "client.client_id",
            SettingKey::Listen => "v4.1.listen",
            SettingKey::KeepAliveSeconds => "client.keep_alive_seconds",
            SettingKey::SubscribeTopic => "client.subscribe_topic",
            SettingKey::PublishTopic => "client.publish_topic",
            SettingKey::Qos => "client.qos",
            SettingKey::PublishCount => "client.publish_count",
            SettingKey::PublishIntervalMs => "client.publish_interval_ms",
        }
    }
}

/// Why a configuration could not be had. Each of these is a static defect:
/// none is retried.
#[derive(Clone, Copy, Debug, PartialEq, Eq, Structural)]
pub enum ConfigurationError {
    /// There is no configuration document.
    NotFound,
    /// The document is not UTF-8 text.
    NotUtf8,
    /// The document's text is not a well-formed set of settings.
    Malformed,
    /// A required setting is absent, or has a value of the wrong kind.
    Missing(SettingKey),
    /// The listen address has no colon, so no port.
    MissingPort,
    /// What follows the colon of the listen address is no port number.
    InvalidPort,
    /// The settings do not fit the broker engine's schema.
    Schema,
}

impl ConfigurationError {
    /// The text of the message that `message` returns.
    pub open spec fn message_spec(self) -> Seq<char> {
        match self {
            ConfigurationError::NotFound => "Configuration file not found in embedded assets"@,
            ConfigurationError::NotUtf8 => "Configuration file is not valid UTF-8"@,
            ConfigurationError::Malformed => "Failed to build config"@,
            ConfigurationError::Missing(key) => "Failed to get "@ + key.path_spec(),
            ConfigurationError::MissingPort => "Failed to parse port from listen address"@,
            ConfigurationError::InvalidPort => "Failed to parse port"@,
            ConfigurationError::Schema => "Failed to deserialize broker config"@,
        }
    }

    /// A line that tells a person what went wrong.
    pub fn message(&self) -> (text: String)
        ensures
            text@ == self.message_spec(),
    {
        match self {
            ConfigurationError::NotFound => String::from_str(
                "Configuration file not found in embedded assets",
            ),
            ConfigurationError::NotUtf8 => String::from_str("Configuration file is not valid UTF-8"),
            ConfigurationError::Malformed => String::from_str("Failed to build config"),
            ConfigurationError::Missing(key) => {
                let mut text = String::from_str("Failed to get ");
                text.append(key.path());
                text
            },
            ConfigurationError::MissingPort => String::from_str(
                "Failed to parse port from listen address",
            ),
            ConfigurationError::InvalidPort => String::from_str("Failed to parse port"),
            ConfigurationError::Schema => String::from_str("Failed to deserialize broker config"),
        }
    }
}

/// The operation on a link or session that failed. Each of these ends the
/// loop that met it; nothing reconnects.
#[derive(Clone, Copy, Debug, PartialEq, Eq, Structural)]
pub enum LinkError {
    /// The engine refused to open the link.
    Open,
    /// The subscription was refused.
    Subscribe,
    /// A publish was refused.
    Publish,
    /// The receiving half closed or failed.
    Receive,
}

impl LinkError {
    /// The text of the message that `message` returns.
    pub open spec fn message_spec(self) -> Seq<char> {
        match self {
            LinkError::Open => "Failed to create broker link"@,
            LinkError::Subscribe => "Failed to subscribe to topic"@,
            LinkError::Publish => "Failed to publish message"@,
            LinkError::Receive => "Failed to receive notification"@,
        }
    }

    /// A line that tells a person what went wrong.
    pub fn message(&self) -> (text: String)
        ensures
            text@ == self.message_spec(),
    {
        match self {
            LinkError::Open => String::from_str("Failed to create broker link"),
            LinkError::Subscribe => String::from_str("Failed to subscribe to topic"),
            LinkError::Publish => String::from_str("Failed to publish message"),
            LinkError::Receive => String::from_str("Failed to receive notification"),
        }
    }
}

} // verus!
