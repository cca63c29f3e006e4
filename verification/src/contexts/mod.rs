//! Sessions that run over the engine: a socket from its creation to its
//! close.

pub mod common_socket_context;
pub mod socket_context;
