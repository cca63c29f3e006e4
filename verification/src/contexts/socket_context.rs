//! The lifecycle of a socket.
//!
//! A socket is created, connected, used and closed, each by one command of
//! the engine. The context of a socket carries its handle and, in its type,
//! its stage; every step consumes the context, so that a socket that was
//! closed, or that is between two stages, cannot be used. Every step has
//! two halves: one tells which command the step issues, the other takes
//! what the engine returned for it.

use vstd::prelude::*;
use core::marker::PhantomData;
use crate::at_command::socket::{
    CloseSocket, ConnectSocketToRemote, CreateSocket, Domain, Protocol, SendSocketMessage,
    SendSocketString, SocketCreated, Type,
};
use crate::at_command::fails_with;
use crate::contexts::common_socket_context::{Connected, PendingConnection};
use crate::AtError;

verus! {

/// The stage of a socket's lifecycle.
#[derive(Clone, Copy, Debug, PartialEq, Eq, Structural)]
pub enum SocketStage {
    /// The socket with this handle exists and is not connected.
    Pending(u8),
    /// The socket with this handle is connected.
    Connected(u8),
    /// The socket was closed. Nothing is legal any more.
    Closed,
}

impl SocketStage {
    /// The stage after `connect_to_remote`, given what the engine returned
    /// for the command. Legal from `Pending` only.
    pub open spec fn after_connect(self, reply: Result<(), AtError>) -> Result<
        SocketStage,
        AtError,
    > {
        match self {
            SocketStage::Pending(socket_id) => match reply {
                Ok(_) => Ok(SocketStage::Connected(socket_id)),
                Err(e) => Err(e),
            },
            _ => Err(AtError::IllegalModuleState),
        }
    }

    /// The outcome of a send, given what the engine returned for the
    /// command. Legal from `Connected` only; the stage stays.
    pub open spec fn sent(self, reply: Result<(), AtError>) -> Result<(), AtError> {
        match self {
            SocketStage::Connected(_) => reply,
            _ => Err(AtError::IllegalModuleState),
        }
    }

    /// The stage after `close`, given what the engine returned for the
    /// command. Legal from `Pending` and from `Connected`.
    pub open spec fn after_close(self, reply: Result<(), AtError>) -> Result<SocketStage, AtError> {
        match self {
            SocketStage::Closed => Err(AtError::IllegalModuleState),
            _ => match reply {
                Ok(_) => Ok(SocketStage::Closed),
                Err(e) => Err(e),
            },
        }
    }
}

impl SocketStage {
    /// Completes a connect with what the engine returned for the command.
    pub fn connect(self, reply: Result<(), AtError>) -> (r: Result<SocketStage, AtError>)
        ensures
            r == self.after_connect(reply),
    {
        match self {
            SocketStage::Pending(socket_id) => match reply {
                Ok(_) => Ok(SocketStage::Connected(socket_id)),
                Err(e) => Err(e),
            },
            _ => Err(AtError::IllegalModuleState),
        }
    }

    /// Completes a send with what the engine returned for the command.
    pub fn send(self, reply: Result<(), AtError>) -> (r: Result<(), AtError>)
        ensures
            r == self.sent(reply),
    {
        match self {
            SocketStage::Connected(_) => reply,
            _ => Err(AtError::IllegalModuleState),
        }
    }

    /// Completes a close with what the engine returned for the command.
    pub fn close(self, reply: Result<(), AtError>) -> (r: Result<SocketStage, AtError>)
        ensures
            r == self.after_close(reply),
    {
        match self {
            SocketStage::Closed => Err(AtError::IllegalModuleState),
            _ => match reply {
                Ok(_) => Ok(SocketStage::Closed),
                Err(e) => Err(e),
            },
        }
    }
}

/// After a close nothing is legal: a closed socket cannot be connected,
/// cannot send and cannot be closed again, whatever the engine returned.
pub proof fn lemma_closed_is_final(reply: Result<(), AtError>)
    ensures
        SocketStage::Closed.after_connect(reply) == Err::<SocketStage, AtError>(
            AtError::IllegalModuleState,
        ),
        SocketStage::Closed.sent(reply) == Err::<(), AtError>(AtError::IllegalModuleState),
        SocketStage::Closed.after_close(reply) == Err::<SocketStage, AtError>(
            AtError::IllegalModuleState,
        ),
{
}

/// A close that succeeds ends in `Closed` from every stage it is legal in,
/// and no step leads out of `Closed`.
pub proof fn lemma_close_is_terminal(
    stage: SocketStage,
    close: Result<(), AtError>,
    later: Result<(), AtError>,
)
    requires
        stage.after_close(close) is Ok,
    ensures
        stage.after_close(close).unwrap() == SocketStage::Closed,
        stage.after_close(close).unwrap().after_connect(later) is Err,
        stage.after_close(close).unwrap().sent(later) is Err,
        stage.after_close(close).unwrap().after_close(later) is Err,
{
}

/// The context of a socket in the stage `S`.
#[derive(Debug)]
pub struct SocketContext<S> {
    socket_id: u8,
    _state: PhantomData<S>,
}

/// The command that creates the socket of a new context.
pub fn new_socket_context_command(
    domain: Domain,
    connection_type: Type,
    protocol: Protocol,
    cid: Option<i32>,
) -> (r: CreateSocket)
    ensures
        r == (CreateSocket { domain, connection_type, protocol, cid }),
{
    CreateSocket { cid, domain, connection_type, protocol }
}

/// Completes the creation of a context with what the engine returned for
/// the command: the context of the socket that the module named, or the
/// engine's error.
pub fn new_socket_context(reply: Result<SocketCreated, AtError>) -> (r: Result<
    SocketContext<PendingConnection>,
    AtError,
>)
    ensures
        match reply {
            Ok(created) => r is Ok && r.unwrap().stage() == SocketStage::Pending(
                created.socket_id,
            ),
            Err(e) => fails_with(r, e),
        },
{
    match reply {
        Ok(created) => Ok(SocketContext { socket_id: created.socket_id, _state: PhantomData }),
        Err(e) => Err(e),
    }
}

impl SocketContext<PendingConnection> {
    /// The stage of the socket.
    pub closed spec fn stage(&self) -> SocketStage {
        SocketStage::Pending(self.socket_id)
    }

    /// The handle of the socket.
    pub fn socket_id(&self) -> (r: u8)
        ensures
            self.stage() == SocketStage::Pending(r),
    {
        self.socket_id
    }

    /// The stage of the socket.
    pub fn current_stage(&self) -> (r: SocketStage)
        ensures
            r == self.stage(),
    {
        SocketStage::Pending(self.socket_id)
    }

    /// The command that `connect_to_remote` issues.
    pub fn connect_to_remote_command<'a>(&self, port: u16, address: &'a str) -> (r:
        ConnectSocketToRemote<'a>)
        ensures
            self.stage() == SocketStage::Pending(r.socket_id),
            r.port == port,
            r.remote_address == address,
    {
        ConnectSocketToRemote { port, socket_id: self.socket_id, remote_address: address }
    }

    /// Completes `connect_to_remote` with what the engine returned for the
    /// command: the context of the same socket, connected, or the engine's
    /// error.
    pub fn connect_to_remote(self, reply: Result<(), AtError>) -> (r: Result<
        SocketContext<Connected>,
        AtError,
    >)
        ensures
            match self.stage().after_connect(reply) {
                Ok(stage) => r is Ok && r.unwrap().stage() == stage,
                Err(e) => fails_with(r, e),
            },
    {
        match reply {
            Ok(_) => Ok(SocketContext { socket_id: self.socket_id, _state: PhantomData }),
            Err(e) => Err(e),
        }
    }

    /// The command that `close` issues.
    pub fn close_command(&self) -> (r: CloseSocket)
        ensures
            self.stage() == SocketStage::Pending(r.socket_id),
    {
        CloseSocket { socket_id: self.socket_id }
    }

    /// Completes `close` with what the engine returned for the command.
    /// The context is gone either way.
    pub fn close(self, reply: Result<(), AtError>) -> (r: Result<(), AtError>)
        ensures
            r == reply,
            r is Ok <==> self.stage().after_close(reply) == Ok::<SocketStage, AtError>(
                SocketStage::Closed,
            ),
            r is Err ==> self.stage().after_close(reply) == Err::<SocketStage, AtError>(
                r.unwrap_err(),
            ),
    {
        reply
    }
}

impl SocketContext<Connected> {
    /// The stage of the socket.
    pub closed spec fn stage(&self) -> SocketStage {
        SocketStage::Connected(self.socket_id)
    }

    /// The handle of the socket.
    pub fn socket_id(&self) -> (r: u8)
        ensures
            self.stage() == SocketStage::Connected(r),
    {
        self.socket_id
    }

    /// The stage of the socket.
    pub fn current_stage(&self) -> (r: SocketStage)
        ensures
            r == self.stage(),
    {
        SocketStage::Connected(self.socket_id)
    }

    /// The command that `send_string` issues.
    pub fn send_string_command<'a>(&self, data: &'a str) -> (r: SendSocketString<'a>)
        ensures
            self.stage() == SocketStage::Connected(r.socket_id),
            r.data == data,
    {
        SendSocketString { data, socket_id: self.socket_id }
    }

    /// Completes `send_string` with what the engine returned for the
    /// command. The socket stays connected.
    pub fn send_string(&mut self, reply: Result<(), AtError>) -> (r: Result<(), AtError>)
        ensures
            r == old(self).stage().sent(reply),
            final(self).stage() == old(self).stage(),
    {
        reply
    }

    /// The command that `send_data` issues.
    pub fn send_data_command<'a>(&self, data: &'a [u8]) -> (r: SendSocketMessage<'a>)
        ensures
            self.stage() == SocketStage::Connected(r.socket_id),
            r.data == data,
    {
        SendSocketMessage { data, socket_id: self.socket_id }
    }

    /// Completes `send_data` with what the engine returned for the command.
    /// The socket stays connected.
    pub fn send_data(&mut self, reply: Result<(), AtError>) -> (r: Result<(), AtError>)
        ensures
            r == old(self).stage().sent(reply),
            final(self).stage() == old(self).stage(),
    {
        reply
    }

    /// The command that `close` issues.
    pub fn close_command(&self) -> (r: CloseSocket)
        ensures
            self.stage() == SocketStage::Connected(r.socket_id),
    {
        CloseSocket { socket_id: self.socket_id }
    }

    /// Completes `close` with what the engine returned for the command.
    /// The context is gone either way.
    pub fn close(self, reply: Result<(), AtError>) -> (r: Result<(), AtError>)
        ensures
            r == reply,
            r is Ok <==> self.stage().after_close(reply) == Ok::<SocketStage, AtError>(
                SocketStage::Closed,
            ),
            r is Err ==> self.stage().after_close(reply) == Err::<SocketStage, AtError>(
                r.unwrap_err(),
            ),
    {
        reply
    }
}

} // verus!
