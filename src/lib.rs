//! Bridge between a peer process speaking length-prefixed JSON over stdio and
//! local network clients: frame codec, message classification, command
//! construction, the shared state store and the broadcast command bus.

pub mod frame;
pub mod json;
pub mod message;
pub mod store;
pub mod bus;
pub mod command;
pub mod config;
pub mod hub;
