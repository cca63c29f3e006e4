//! The stages of a socket, as markers for the type of its context.

use vstd::prelude::*;

verus! {

/// The socket exists and is not connected.
#[derive(Clone, Copy, Debug, Default)]
pub struct PendingConnection;

/// The socket is connected to its remote peer.
#[derive(Clone, Copy, Debug, Default)]
pub struct Connected;

/// The socket was closed.
#[derive(Clone, Copy, Debug, Default)]
pub struct Closed;

} // verus!
