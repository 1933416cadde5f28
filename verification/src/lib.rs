//! The logic of a single-node MQTT harness: what a broker role and a client
//! role decide from their configuration and from the events of their links.

pub mod address;
pub mod broker;
pub mod client;
pub mod error;
pub mod settings;
pub mod text;
