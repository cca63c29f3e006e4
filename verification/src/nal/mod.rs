//! The socket of a network stack over the engine.

pub mod tcp_socket;
