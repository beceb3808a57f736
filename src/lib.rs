//! Load generator for MQTT brokers: configuration model, credential
//! resolution, connection planning and the per-session publish engine.

pub mod context;
pub mod random;
pub mod template;
pub mod config;
pub mod session;
pub mod credential;
pub mod connection;
pub mod registry;
