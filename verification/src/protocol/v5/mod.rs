//! The MQTT 5.0 dialect.

pub mod codec;
pub mod connack;
pub mod connect;
pub mod property;

pub use codec::Codec;
pub use connack::ConnAckProperties;
pub use connect::{ConnectProperties, WillProperties};
