//! The settings of both roles, read from one configuration document.
//!
//! The store of settings is built from the document's text outside this
//! library, and so is the broker engine's reading of the store: what is
//! here says what becomes of their outcomes, and reads the client's
//! settings from the store.

use vstd::prelude::*;
use vstd::string::*;
use vstd::utf8::*;
use config::Config;
use rumqttc::MqttOptions;
use crate::address::{listen_address, split_listen};
use crate::error::{ConfigurationError, SettingKey};

verus! {

/// `config::Config`, a store of settings. Nothing of its inside is known
/// here but what `config_strings` and `config_integers` name.
#[verifier::external_type_specification]
#[verifier::external_body]
pub struct ExConfig(config::Config);

/// `config::ConfigError`, the store's own error. It is carried, and never
/// looked into.
#[verifier::external_type_specification]
#[verifier::external_body]
pub struct ExConfigFailure(config::ConfigError);

/// `rumqttd::Config`, the broker engine's settings. They are carried to the
/// engine, and never looked into.
#[verifier::external_type_specification]
#[verifier::external_body]
pub struct ExBrokerSettings(rumqttd::Config);

/// `rumqttc::MqttOptions`, the client engine's connection options. Nothing
/// of their inside is known here but what `options_client_id`,
/// `options_address` and `options_keep_alive` name.
#[verifier::external_type_specification]
#[verifier::external_body]
pub struct ExMqttOptions(rumqttc::MqttOptions);

/// The texts that a settings store holds: each path under which
/// `Config::get::<String>` finds a value that it can give as text, with
/// that text.
pub uninterp spec fn config_strings(settings: Config) -> Map<Seq<char>, Seq<char>>;

/// The integers that a settings store holds: each path under which
/// `Config::get::<i64>` finds a value that it can give as an integer, with
/// that integer.
pub uninterp spec fn config_integers(settings: Config) -> Map<Seq<char>, i64>;

/// The identifier that a set of connection options carries, as
/// `MqttOptions::client_id` gives it.
pub uninterp spec fn options_client_id(options: MqttOptions) -> Seq<char>;

/// The broker's host and port that a set of connection options carries, as
/// `MqttOptions::broker_address` gives them.
pub uninterp spec fn options_address(options: MqttOptions) -> (Seq<char>, u16);

/// The keep-alive time that a set of connection options carries, as
/// `MqttOptions::keep_alive` gives it, in whole seconds.
pub uninterp spec fn options_keep_alive(options: MqttOptions) -> nat;

/// `std::str::from_utf8`: the bytes as text where they are UTF-8, and
/// nothing where they are not. The text has the very bytes given.
#[verifier::external_body]
fn utf8_text(bytes: &[u8]) -> (text: Option<&str>)
    ensures
        text is Some <==> valid_utf8(bytes@),
        text matches Some(t) ==> t.spec_bytes() == bytes@,
{
    std::str::from_utf8(bytes).ok()
}

/// `Config::get::<String>`: the text under a path, or an error where the
/// path leads to nothing or to a value that is no text.
#[verifier::external_body]
fn lookup_text(settings: &Config, path: &str) -> (found: Result<String, config::ConfigError>)
    ensures
        match found {
            Ok(text) => config_strings(*settings).contains_key(path@) && config_strings(
                *settings,
            )[path@] == text@,
            Err(_) => !config_strings(*settings).contains_key(path@),
        },
{
    settings.get::<String>(path)
}

/// `Config::get::<i64>`: the integer under a path, or an error where the
/// path leads to nothing or to a value that is no integer.
#[verifier::external_body]
fn lookup_integer(settings: &Config, path: &str) -> (found: Result<i64, config::ConfigError>)
    ensures
        match found {
            Ok(number) => config_integers(*settings).contains_key(path@) && config_integers(
                *settings,
            )[path@] == number,
            Err(_) => !config_integers(*settings).contains_key(path@),
        },
{
    settings.get::<i64>(path)
}

/// `MqttOptions::new`: connection options that carry the identifier, host
/// and port given.
#[verifier::external_body]
fn new_options(client_id: &str, host: &str, port: u16) -> (options: MqttOptions)
    ensures
        options_client_id(options) == client_id@,
        options_address(options) == (host@, port),
{
    MqttOptions::new(client_id, host, port)
}

/// `MqttOptions::set_keep_alive` with a `Duration` of whole seconds: the
/// options then carry that keep-alive time, and the identifier and address
/// that they had.
#[verifier::external_body]
fn set_keep_alive(options: &mut MqttOptions, seconds: u64)
    ensures
        options_keep_alive(*final(options)) == seconds,
        options_client_id(*final(options)) == options_client_id(*old(options)),
        options_address(*final(options)) == options_address(*old(options)),
{
    options.set_keep_alive(std::time::Duration::from_secs(seconds));
}

/// The delivery guarantee of a subscription or a publish.
#[derive(Clone, Copy, Debug, PartialEq, Eq, Structural)]
pub enum QoS {
    AtMostOnce,
    AtLeastOnce,
    ExactlyOnce,
}

/// The topic that the client subscribes and publishes to where the document
/// names none.
pub const DEFAULT_TOPIC: &'static str = "hello/rumqtt";

/// The level of the delivery guarantee where the document names none.
pub const DEFAULT_QOS_LEVEL: i64 = 1;

/// The number of publishes where the document names none.
pub const DEFAULT_PUBLISH_COUNT: i64 = 10;

/// The pause after each publish, in milliseconds, where the document names
/// none.
pub const DEFAULT_PUBLISH_INTERVAL_MS: i64 = 100;

impl QoS {
    /// The guarantee that a level stands for: 0, 1 and 2 are the three
    /// guarantees in order, and every other number stands for the default.
    pub open spec fn of_level(level: i64) -> QoS {
        if level == 0 {
            QoS::AtMostOnce
        } else if level == 2 {
            QoS::ExactlyOnce
        } else {
            QoS::AtLeastOnce
        }
    }

    /// The guarantee that a level stands for.
    pub fn from_level(level: i64) -> (qos: QoS)
        ensures
            qos == QoS::of_level(level),
    {
        match level {
            0 => QoS::AtMostOnce,
            1 => QoS::AtLeastOnce,
            2 => QoS::ExactlyOnce,
            _ => QoS::AtLeastOnce,
        }
    }
}

/// What the client role is configured with, as mathematical values.
pub struct ClientProfile {
    pub client_id: Seq<char>,
    pub host: Seq<char>,
    pub port: u16,
    pub keep_alive_seconds: u64,
    pub subscribe_topic: Seq<char>,
    pub publish_topic: Seq<char>,
    pub qos: QoS,
    pub publish_count: usize,
    pub publish_interval_ms: u64,
}

/// What the client role is configured with.
pub struct ClientConfig {
    /// The identifier under which the client connects.
    pub client_id: String,
    /// The broker's host.
    pub host: String,
    /// The broker's port.
    pub port: u16,
    /// The keep-alive time of the connection, in seconds.
    pub keep_alive_seconds: u64,
    /// The topic to subscribe to.
    pub subscribe_topic: String,
    /// The topic to publish to.
    pub publish_topic: String,
    /// The delivery guarantee of the subscription and of each publish.
    pub qos: QoS,
    /// The number of publishes.
    pub publish_count: usize,
    /// The pause after each publish, in milliseconds.
    pub publish_interval_ms: u64,
}

impl View for ClientConfig {
    type V = ClientProfile;

    open spec fn view(&self) -> ClientProfile {
        ClientProfile {
            client_id: self.client_id@,
            host: self.host@,
            port: self.port,
            keep_alive_seconds: self.keep_alive_seconds,
            subscribe_topic: self.subscribe_topic@,
            publish_topic: self.publish_topic@,
            qos: self.qos,
            publish_count: self.publish_count,
            publish_interval_ms: self.publish_interval_ms,
        }
    }
}

impl ClientConfig {
    /// The connection options of the client engine for this configuration:
    /// they carry its identifier, host, port and keep-alive time.
    pub fn mqtt_options(&self) -> (options: MqttOptions)
        ensures
            options_client_id(options) == self.client_id@,
            options_address(options) == (self.host@, self.port),
            options_keep_alive(options) == self.keep_alive_seconds,
    {
        let mut options = new_options(self.client_id.as_str(), self.host.as_str(), self.port);
        set_keep_alive(&mut options, self.keep_alive_seconds);
        options
    }
}

/// The text under `key`, or `fallback` where there is none.
pub open spec fn text_or(
    strings: Map<Seq<char>, Seq<char>>,
    key: SettingKey,
    fallback: Seq<char>,
) -> Seq<char> {
    if strings.contains_key(key.path_spec()) {
        strings[key.path_spec()]
    } else {
        fallback
    }
}

/// The integer under `key`, or `fallback` where there is none.
pub open spec fn integer_or(integers: Map<Seq<char>, i64>, key: SettingKey, fallback: i64) -> i64 {
    if integers.contains_key(key.path_spec()) {
        integers[key.path_spec()]
    } else {
        fallback
    }
}

/// The client's configuration that a store of settings gives, or the first
/// reason why it gives none.
///
/// The identifier, the listen address and the keep-alive time are required,
/// and are looked at in this order. The other five settings have defaults.
/// Negative numbers are taken modulo the width of their field.
pub open spec fn client_profile(
    strings: Map<Seq<char>, Seq<char>>,
    integers: Map<Seq<char>, i64>,
) -> Result<ClientProfile, ConfigurationError> {
    if !strings.contains_key(SettingKey::ClientId.path_spec()) {
        Err(ConfigurationError::Missing(SettingKey::ClientId))
    } else if !strings.contains_key(SettingKey::Listen.path_spec()) {
        Err(ConfigurationError::Missing(SettingKey::Listen))
    } else {
        match listen_address(strings[SettingKey::Listen.path_spec()]) {
            Err(e) => Err(e),
            Ok((host, port)) => if !integers.contains_key(
                SettingKey::KeepAliveSeconds.path_spec(),
            ) {
                Err(ConfigurationError::Missing(SettingKey::KeepAliveSeconds))
            } else {
                Ok(
                    ClientProfile {
                        client_id: strings[SettingKey::ClientId.path_spec()],
                        host,
                        port,
                        keep_alive_seconds: integers[SettingKey::KeepAliveSeconds.path_spec()] as u64,
                        subscribe_topic: text_or(
                            strings,
                            SettingKey::SubscribeTopic,
                            DEFAULT_TOPIC@,
                        ),
                        publish_topic: text_or(strings, SettingKey::PublishTopic, DEFAULT_TOPIC@),
                        qos: QoS::of_level(
                            integer_or(integers, SettingKey::Qos, DEFAULT_QOS_LEVEL),
                        ),
                        publish_count: integer_or(
                            integers,
                            SettingKey::PublishCount,
                            DEFAULT_PUBLISH_COUNT,
                        ) as usize,
                        publish_interval_ms: integer_or(
                            integers,
                            SettingKey::PublishIntervalMs,
                            DEFAULT_PUBLISH_INTERVAL_MS,
                        ) as u64,
                    },
                )
            },
        }
    }
}

/// The text of a configuration document, or the reason why it has none:
/// there is no document, or its bytes are not UTF-8.
pub open spec fn document_text(document: Option<&[u8]>) -> Result<Seq<char>, ConfigurationError> {
    match document {
        None => Err(ConfigurationError::NotFound),
        Some(bytes) => if valid_utf8(bytes@) {
            Ok(decode_utf8(bytes@))
        } else {
            Err(ConfigurationError::NotUtf8)
        },
    }
}

/// Whether settings are valid for the client role: the identifier, a listen
/// address with a host part and a port number, and the keep-alive time are
/// there.
pub open spec fn valid_client_settings(
    strings: Map<Seq<char>, Seq<char>>,
    integers: Map<Seq<char>, i64>,
) -> bool {
    &&& strings.contains_key(SettingKey::ClientId.path_spec())
    &&& strings.contains_key(SettingKey::Listen.path_spec())
    &&& listen_address(strings[SettingKey::Listen.path_spec()]) is Ok
    &&& integers.contains_key(SettingKey::KeepAliveSeconds.path_spec())
}

/// Valid settings, and no others, give a configuration of the client. In
/// it each setting that has a default holds the default exactly where the
/// settings name no value, and the value that they name otherwise; a level
/// of the delivery guarantee other than 0, 1 and 2 counts as the default.
/// A number that is not negative, and that fits the machine's word where it
/// is the number of publishes, is kept as it is.
pub proof fn lemma_valid_settings_give_profile(
    strings: Map<Seq<char>, Seq<char>>,
    integers: Map<Seq<char>, i64>,
)
    ensures
        client_profile(strings, integers) is Ok <==> valid_client_settings(strings, integers),
        client_profile(strings, integers) matches Ok(profile) ==> {
            &&& profile.client_id == strings[SettingKey::ClientId.path_spec()]
            &&& listen_address(strings[SettingKey::Listen.path_spec()]) == Ok::<
                (Seq<char>, u16),
                ConfigurationError,
            >((profile.host, profile.port))
            &&& profile.keep_alive_seconds == integers[SettingKey::KeepAliveSeconds.path_spec()] as u64
            &&& profile.subscribe_topic == if strings.contains_key(
                SettingKey::SubscribeTopic.path_spec(),
            ) {
                strings[SettingKey::SubscribeTopic.path_spec()]
            } else {
                DEFAULT_TOPIC@
            }
            &&& profile.publish_topic == if strings.contains_key(
                SettingKey::PublishTopic.path_spec(),
            ) {
                strings[SettingKey::PublishTopic.path_spec()]
            } else {
                DEFAULT_TOPIC@
            }
            &&& profile.qos == if !integers.contains_key(SettingKey::Qos.path_spec()) {
                QoS::AtLeastOnce
            } else if integers[SettingKey::Qos.path_spec()] == 0 {
                QoS::AtMostOnce
            } else if integers[SettingKey::Qos.path_spec()] == 2 {
                QoS::ExactlyOnce
            } else {
                QoS::AtLeastOnce
            }
            &&& profile.publish_count == if integers.contains_key(
                SettingKey::PublishCount.path_spec(),
            ) {
                integers[SettingKey::PublishCount.path_spec()] as usize
            } else {
                10usize
            }
            &&& profile.publish_interval_ms == if integers.contains_key(
                SettingKey::PublishIntervalMs.path_spec(),
            ) {
                integers[SettingKey::PublishIntervalMs.path_spec()] as u64
            } else {
                100u64
            }
        },
        client_profile(strings, integers) matches Ok(profile) ==> {
            &&& 0 <= integers[SettingKey::KeepAliveSeconds.path_spec()]
                ==> profile.keep_alive_seconds == integers[SettingKey::KeepAliveSeconds.path_spec()]
            &&& integers.contains_key(SettingKey::PublishCount.path_spec()) && 0
                <= integers[SettingKey::PublishCount.path_spec()] <= usize::MAX
                ==> profile.publish_count == integers[SettingKey::PublishCount.path_spec()]
            &&& integers.contains_key(SettingKey::PublishIntervalMs.path_spec()) && 0
                <= integers[SettingKey::PublishIntervalMs.path_spec()]
                ==> profile.publish_interval_ms == integers[SettingKey::PublishIntervalMs.path_spec()]
        },
{
}

/// The entry to the configuration of both roles.
pub struct SharedConfig;

impl SharedConfig {
    /// The text of the configuration document, where `None` says that no
    /// document was found.
    pub fn text<'a>(document: Option<&'a [u8]>) -> (text: Result<&'a str, ConfigurationError>)
        ensures
            match text {
                Ok(t) => document_text(document) == Ok::<Seq<char>, ConfigurationError>(t@),
                Err(e) => document_text(document) == Err::<Seq<char>, ConfigurationError>(e),
            },
    {
        let bytes = match document {
            Some(bytes) => bytes,
            None => return Err(ConfigurationError::NotFound),
        };
        match utf8_text(bytes) {
            Some(text) => {
                proof {
                    encode_utf8_decode_utf8(text@);
                }
                Ok(text)
            },
            None => Err(ConfigurationError::NotUtf8),
        }
    }

    /// The store of settings that the build of the document's text gave,
    /// or `ConfigurationError::Malformed` where the build failed.
    pub fn new(built: Result<Config, config::ConfigError>) -> (loaded: Result<
        Config,
        ConfigurationError,
    >)
        ensures
            match built {
                Ok(settings) => loaded == Ok::<Config, ConfigurationError>(settings),
                Err(_) => loaded == Err::<Config, ConfigurationError>(
                    ConfigurationError::Malformed,
                ),
            },
    {
        match built {
            Ok(settings) => Ok(settings),
            Err(_) => Err(ConfigurationError::Malformed),
        }
    }

    /// The text of a required setting.
    pub fn get_text(settings: &Config, key: SettingKey) -> (found: Result<String, ConfigurationError>)
        ensures
            match found {
                Ok(text) => config_strings(*settings).contains_key(key.path_spec())
                    && config_strings(*settings)[key.path_spec()] == text@,
                Err(e) => !config_strings(*settings).contains_key(key.path_spec()) && e
                    == ConfigurationError::Missing(key),
            },
    {
        match lookup_text(settings, key.path()) {
            Ok(text) => Ok(text),
            Err(_) => Err(ConfigurationError::Missing(key)),
        }
    }

    /// The integer of a required setting.
    pub fn get_integer(settings: &Config, key: SettingKey) -> (found: Result<i64, ConfigurationError>)
        ensures
            match found {
                Ok(number) => config_integers(*settings).contains_key(key.path_spec())
                    && config_integers(*settings)[key.path_spec()] == number,
                Err(e) => !config_integers(*settings).contains_key(key.path_spec()) && e
                    == ConfigurationError::Missing(key),
            },
    {
        match lookup_integer(settings, key.path()) {
            Ok(number) => Ok(number),
            Err(_) => Err(ConfigurationError::Missing(key)),
        }
    }

    /// The client's configuration that a store of settings gives: there is
    /// one exactly where the settings are valid for the client.
    pub fn client(settings: &Config) -> (loaded: Result<ClientConfig, ConfigurationError>)
        ensures
            loaded is Ok <==> valid_client_settings(
                config_strings(*settings),
                config_integers(*settings),
            ),
            match loaded {
                Ok(config) => client_profile(config_strings(*settings), config_integers(*settings))
                    == Ok::<ClientProfile, ConfigurationError>(config@),
                Err(e) => client_profile(config_strings(*settings), config_integers(*settings))
                    == Err::<ClientProfile, ConfigurationError>(e),
            },
    {
        let client_id = match SharedConfig::get_text(settings, SettingKey::ClientId) {
            Ok(text) => text,
            Err(e) => return Err(e),
        };
        let listen = match SharedConfig::get_text(settings, SettingKey::Listen) {
            Ok(text) => text,
            Err(e) => return Err(e),
        };
        let (host, port) = match split_listen(listen.as_str()) {
            Ok(parts) => parts,
            Err(e) => return Err(e),
        };
        let keep_alive = match SharedConfig::get_integer(settings, SettingKey::KeepAliveSeconds) {
            Ok(number) => number,
            Err(e) => return Err(e),
        };
        let subscribe_topic = match SharedConfig::get_text(settings, SettingKey::SubscribeTopic) {
            Ok(text) => text,
            Err(_) => DEFAULT_TOPIC.to_owned(),
        };
        let publish_topic = match SharedConfig::get_text(settings, SettingKey::PublishTopic) {
            Ok(text) => text,
            Err(_) => DEFAULT_TOPIC.to_owned(),
        };
        let level = match SharedConfig::get_integer(settings, SettingKey::Qos) {
            Ok(number) => number,
            Err(_) => DEFAULT_QOS_LEVEL,
        };
        let count = match SharedConfig::get_integer(settings, SettingKey::PublishCount) {
            Ok(number) => number,
            Err(_) => DEFAULT_PUBLISH_COUNT,
        };
        let interval = match SharedConfig::get_integer(settings, SettingKey::PublishIntervalMs) {
            Ok(number) => number,
            Err(_) => DEFAULT_PUBLISH_INTERVAL_MS,
        };
        Ok(
            ClientConfig {
                client_id,
                host,
                port,
                keep_alive_seconds: #[verifier::truncate] (keep_alive as u64),
                subscribe_topic,
                publish_topic,
                qos: QoS::from_level(level),
                publish_count: #[verifier::truncate] (count as usize),
                publish_interval_ms: #[verifier::truncate] (interval as u64),
            },
        )
    }

    /// The broker engine's settings that its reading of the store gave, or
    /// `ConfigurationError::Schema` where the reading failed.
    pub fn broker(read: Result<rumqttd::Config, config::ConfigError>) -> (loaded: Result<
        rumqttd::Config,
        ConfigurationError,
    >)
        ensures
            match read {
                Ok(settings) => loaded == Ok::<rumqttd::Config, ConfigurationError>(settings),
                Err(_) => loaded == Err::<rumqttd::Config, ConfigurationError>(
                    ConfigurationError::Schema,
                ),
            },
    {
        match read {
            Ok(settings) => Ok(settings),
            Err(_) => Err(ConfigurationError::Schema),
        }
    }
}

} // verus!
