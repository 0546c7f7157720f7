//! A client core for a real-time gateway protocol: a JSON value model, the
//! frame codec, the session state machine with its heartbeat schedule, and
//! the types a bot is configured with.
pub mod json;
pub mod model;
pub mod gateway;
pub mod frames;
pub mod session;
pub mod heartbeat;
pub mod transport;
pub mod command;
pub mod template;
