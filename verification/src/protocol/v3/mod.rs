//! The MQTT 3.1 and 3.1.1 dialect.

pub mod codec;
pub mod connack;
pub mod connect;

pub use codec::Codec;
