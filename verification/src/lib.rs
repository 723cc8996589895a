//! Wire protocol core of the IotMQ broker.
//!
//! The crate frames an MQTT byte stream into control packets, probes the
//! dialect of a new connection from its first CONNECT, decodes CONNECT and
//! encodes CONNACK for MQTT 3.1, 3.1.1 and 5.0, and decides each step of the
//! connection handshake. Beside that core it holds the rules of the
//! configuration and of the admin API that need no I/O. Every function
//! states what it returns over a mathematical model of what it is given.

pub mod api;
pub mod buf;
pub mod config;
pub mod log;
pub mod mqtt;
pub mod protocol;
pub mod stream;
pub mod text;
pub mod web;
