//! A TCP socket as a network stack sees it: made unconnected, connected
//! once, used, and closed.

use vstd::prelude::*;
use crate::at_command::receive::socket_reception::SocketDataReception;
use crate::at_command::socket::{
    CloseSocket, ConnectSocketToRemote, CreateSocket, Domain, Protocol, SendSocketMessage,
    SendSocketString, Type,
};
use crate::AtError;

verus! {

/// The largest number of bytes that an IP address, of either version, is
/// written with.
pub const MAX_IP_SIZE: usize = 45;

/// Whether a socket is connected.
#[derive(Clone, Copy, Debug, PartialEq, Eq, Structural)]
pub enum SocketStatus {
    Connected,
    Disconnected,
}

/// What is known of a TCP connection: the handle of its socket, once the
/// module named one, and whether it is connected.
#[derive(Clone, Copy, Debug, PartialEq, Eq, Structural)]
pub struct TcpSocketContext {
    /// The handle of the socket. It is set once.
    pub socket_id: Option<u8>,
    /// Whether the socket is connected.
    pub connected: SocketStatus,
}

/// Copies `payload` to the start of `buffer` where it fits.
pub fn copy_payload(buffer: &mut [u8], payload: &[u8]) -> (r: Result<usize, AtError>)
    ensures
        final(buffer)@.len() == old(buffer)@.len(),
        match r {
            Ok(length) => {
                &&& length == payload@.len()
                &&& length <= old(buffer)@.len()
                &&& final(buffer)@.subrange(0, length as int) == payload@
                &&& final(buffer)@.subrange(length as int, old(buffer)@.len() as int) == old(
                    buffer
                )@.subrange(length as int, old(buffer)@.len() as int)
            },
            Err(e) => payload@.len() > old(buffer)@.len() && e == AtError::CapacityError
                && final(buffer)@ == old(buffer)@,
        },
{
    if payload.len() > buffer.len() {
        return Err(AtError::CapacityError);
    }
    let ghost before = buffer@;
    let mut k: usize = 0;
    while k < payload.len()
        invariant
            k <= payload@.len() <= buffer@.len(),
            buffer@.len() == before.len(),
            forall|i: int| 0 <= i < k ==> buffer@[i] == payload@[i],
            forall|i: int| k <= i < buffer@.len() ==> buffer@[i] == before[i],
        decreases payload@.len() - k,
    {
        buffer[k] = payload[k];
        k += 1;
    }
    assert(buffer@.subrange(0, k as int) =~= payload@);
    assert(buffer@.subrange(k as int, before.len() as int) =~= before.subrange(
        k as int,
        before.len() as int,
    ));
    Ok(k)
}

impl TcpSocketContext {
    /// A socket that is not connected and has no handle.
    pub fn new() -> (r: TcpSocketContext)
        ensures
            r.socket_id is None,
            r.connected == SocketStatus::Disconnected,
    {
        TcpSocketContext { connected: SocketStatus::Disconnected, socket_id: None }
    }

    /// The handle of a connected socket, for a step that needs one: an
    /// illegal-state error where the socket is not connected or has no
    /// handle.
    pub open spec fn usable(self) -> Result<u8, AtError> {
        match (self.connected, self.socket_id) {
            (SocketStatus::Connected, Some(socket_id)) => Ok(socket_id),
            _ => Err(AtError::IllegalModuleState),
        }
    }

    /// Checks that the socket is connected.
    pub fn ensure_connected(&self) -> (r: Result<(), AtError>)
        ensures
            r == if self.connected == SocketStatus::Connected {
                Ok::<(), AtError>(())
            } else {
                Err::<(), AtError>(AtError::IllegalModuleState)
            },
    {
        if self.connected != SocketStatus::Connected {
            return Err(AtError::IllegalModuleState);
        }
        Ok(())
    }

    fn connected_socket(&self) -> (r: Result<u8, AtError>)
        ensures
            r == self.usable(),
    {
        match (self.connected, self.socket_id) {
            (SocketStatus::Connected, Some(socket_id)) => Ok(socket_id),
            _ => Err(AtError::IllegalModuleState),
        }
    }

    /// The command that a connect starts with: it creates a TCP socket
    /// over IP in the address family of the remote peer. `None` where the
    /// socket is connected already, in which case the connect is done.
    pub fn create_command(&self, domain: Domain) -> (r: Option<CreateSocket>)
        ensures
            r == if self.connected == SocketStatus::Disconnected {
                Some(
                    CreateSocket {
                        cid: None,
                        domain,
                        protocol: Protocol::IP,
                        connection_type: Type::TCP,
                    },
                )
            } else {
                None
            },
    {
        if self.connected != SocketStatus::Disconnected {
            return None;
        }
        Some(
            CreateSocket { cid: None, domain, protocol: Protocol::IP, connection_type: Type::TCP },
        )
    }

    /// Takes the handle that the module named for the new socket. A socket
    /// that has a handle already keeps it, and the step fails.
    pub fn socket_created(&mut self, socket_id: u8) -> (r: Result<(), AtError>)
        ensures
            final(self).connected == old(self).connected,
            match old(self).socket_id {
                None => r is Ok && final(self).socket_id == Some(socket_id),
                Some(_) => r == Err::<(), AtError>(AtError::IllegalModuleState) && final(
                    self
                ).socket_id == old(self).socket_id,
            },
    {
        if self.socket_id.is_some() {
            return Err(AtError::IllegalModuleState);
        }
        self.socket_id = Some(socket_id);
        Ok(())
    }

    /// The command that connects the socket to `remote_address` and `port`.
    pub fn connect_command<'a>(&self, port: u16, remote_address: &'a str) -> (r: Result<
        ConnectSocketToRemote<'a>,
        AtError,
    >)
        ensures
            match self.socket_id {
                Some(socket_id) => r is Ok && r.unwrap().socket_id == socket_id && r.unwrap().port
                    == port && r.unwrap().remote_address == remote_address,
                None => r is Err && r.unwrap_err() == AtError::IllegalModuleState,
            },
    {
        match self.socket_id {
            Some(socket_id) => Ok(ConnectSocketToRemote { port, socket_id, remote_address }),
            None => Err(AtError::IllegalModuleState),
        }
    }

    /// Takes note that the module connected the socket.
    pub fn mark_connected(&mut self)
        ensures
            final(self).connected == SocketStatus::Connected,
            final(self).socket_id == old(self).socket_id,
    {
        self.connected = SocketStatus::Connected;
    }

    /// The command that sends `buffer` through the socket.
    pub fn send_command<'a>(&self, buffer: &'a [u8]) -> (r: Result<SendSocketMessage<'a>, AtError>)
        ensures
            match self.usable() {
                Ok(socket_id) => r is Ok && r.unwrap().socket_id == socket_id && r.unwrap().data
                    == buffer,
                Err(e) => r is Err && r.unwrap_err() == e,
            },
    {
        match self.connected_socket() {
            Ok(socket_id) => Ok(SendSocketMessage { socket_id, data: buffer }),
            Err(e) => Err(e),
        }
    }

    /// The command that sends the text `buffer` through the socket.
    pub fn send_str_command<'a>(&self, buffer: &'a str) -> (r: Result<
        SendSocketString<'a>,
        AtError,
    >)
        ensures
            match self.usable() {
                Ok(socket_id) => r is Ok && r.unwrap().socket_id == socket_id && r.unwrap().data
                    == buffer,
                Err(e) => r is Err && r.unwrap_err() == e,
            },
    {
        match self.connected_socket() {
            Ok(socket_id) => Ok(SendSocketString { socket_id, data: buffer }),
            Err(e) => Err(e),
        }
    }

    /// Takes a message that the module pushed: where it is for this socket
    /// and fits, its data is copied to the start of `buffer` and its length
    /// is returned. A message for another socket is an I/O error; data
    /// that does not fit is a capacity error; either way `buffer` stays as
    /// it was.
    pub fn receive(&self, message: &SocketDataReception, buffer: &mut [u8]) -> (r: Result<
        usize,
        AtError,
    >)
        ensures
            final(buffer)@.len() == old(buffer)@.len(),
            match self.usable() {
                Err(e) => r == Err::<usize, AtError>(e) && final(buffer)@ == old(buffer)@,
                Ok(socket_id) => if message.socket_id != socket_id {
                    r == Err::<usize, AtError>(AtError::IOError) && final(buffer)@ == old(buffer)@
                } else if message.data@.len() > old(buffer)@.len() {
                    r == Err::<usize, AtError>(AtError::CapacityError) && final(buffer)@ == old(
                        buffer
                    )@
                } else {
                    &&& r == Ok::<usize, AtError>(message.data@.len() as usize)
                    &&& final(buffer)@.subrange(0, message.data@.len() as int) == message.data@
                },
            },
    {
        let socket_id = self.connected_socket()?;
        let payload = message.payload_for(socket_id)?;
        copy_payload(buffer, payload)
    }

    /// The command that closes the socket.
    pub fn close_command(&self) -> (r: Result<CloseSocket, AtError>)
        ensures
            r == match self.socket_id {
                Some(socket_id) => Ok::<CloseSocket, AtError>(CloseSocket { socket_id }),
                None => Err::<CloseSocket, AtError>(AtError::IllegalModuleState),
            },
    {
        match self.socket_id {
            Some(socket_id) => Ok(CloseSocket { socket_id }),
            None => Err(AtError::IllegalModuleState),
        }
    }
}

} // verus!
