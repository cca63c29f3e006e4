//! Sockets: creating one, connecting it, sending through it, closing it.

use vstd::prelude::*;
use vstd::string::StringSliceAdditionalSpecFns;
use crate::at_command::{
    acknowledged, acknowledged_untyped, handle_of, ok_verified, ok_verified_untyped, to_handle,
    verify_ok, verify_ok_untyped, AtRequest, AtResponse, BufferType, MAX_MESSAGE_SIZE,
};
use crate::builder::{
    finished, hex_parameter, int_parameter, set_text, string_parameter, SetCommand,
};
use crate::wire::Cursor;
use crate::AtError;

verus! {

/// The address family of a socket.
#[derive(Clone, Copy, Debug, PartialEq, Eq, Structural)]
pub enum Domain {
    /// Internet protocol, version 4.
    IPv4,
    /// Internet protocol, version 6.
    IPv6,
}

impl Domain {
    /// The value that the module writes as `value`, if there is one.
    pub open spec fn of_code(value: i32) -> Option<Domain> {
        if value == 1 {
            Some(Domain::IPv4)
        } else if value == 2 {
            Some(Domain::IPv6)
        } else {
            None
        }
    }

    /// The number that the module writes for this value.
    pub open spec fn code_spec(self) -> i32 {
        match self {
            Domain::IPv4 => 1,
            Domain::IPv6 => 2,
        }
    }

    /// Reads the number `value` of a reply.
    pub fn from_code(value: i32) -> (r: Option<Domain>)
        ensures
            r == Domain::of_code(value),
            r is Some ==> r.unwrap().code_spec() == value,
    {
        match value {
            1 => Some(Domain::IPv4),
            2 => Some(Domain::IPv6),
            _ => None,
        }
    }

    /// The number that the module writes for this value.
    pub fn code(self) -> (r: i32)
        ensures
            r == self.code_spec(),
            Domain::of_code(r) == Some(self),
    {
        match self {
            Domain::IPv4 => 1,
            Domain::IPv6 => 2,
        }
    }
}

/// The kind of connection of a socket.
#[derive(Clone, Copy, Debug, PartialEq, Eq, Structural)]
pub enum Type {
    /// A stream.
    TCP,
    /// Datagrams.
    UPD,
    /// Raw packets.
    RAW,
}

impl Type {
    /// The value that the module writes as `value`, if there is one.
    pub open spec fn of_code(value: i32) -> Option<Type> {
        if value == 1 {
            Some(Type::TCP)
        } else if value == 2 {
            Some(Type::UPD)
        } else if value == 3 {
            Some(Type::RAW)
        } else {
            None
        }
    }

    /// The number that the module writes for this value.
    pub open spec fn code_spec(self) -> i32 {
        match self {
            Type::TCP => 1,
            Type::UPD => 2,
            Type::RAW => 3,
        }
    }

    /// Reads the number `value` of a reply.
    pub fn from_code(value: i32) -> (r: Option<Type>)
        ensures
            r == Type::of_code(value),
            r is Some ==> r.unwrap().code_spec() == value,
    {
        match value {
            1 => Some(Type::TCP),
            2 => Some(Type::UPD),
            3 => Some(Type::RAW),
            _ => None,
        }
    }

    /// The number that the module writes for this value.
    pub fn code(self) -> (r: i32)
        ensures
            r == self.code_spec(),
            Type::of_code(r) == Some(self),
    {
        match self {
            Type::TCP => 1,
            Type::UPD => 2,
            Type::RAW => 3,
        }
    }
}

/// The protocol under a socket.
#[derive(Clone, Copy, Debug, PartialEq, Eq, Structural)]
pub enum Protocol {
    /// The internet protocol.
    IP,
    /// The control message protocol.
    ICMP,
    /// The lightweight datagram protocol.
    UDPLITE,
}

impl Protocol {
    /// The value that the module writes as `value`, if there is one.
    pub open spec fn of_code(value: i32) -> Option<Protocol> {
        if value == 1 {
            Some(Protocol::IP)
        } else if value == 2 {
            Some(Protocol::ICMP)
        } else if value == 3 {
            Some(Protocol::UDPLITE)
        } else {
            None
        }
    }

    /// The number that the module writes for this value.
    pub open spec fn code_spec(self) -> i32 {
        match self {
            Protocol::IP => 1,
            Protocol::ICMP => 2,
            Protocol::UDPLITE => 3,
        }
    }

    /// Reads the number `value` of a reply.
    pub fn from_code(value: i32) -> (r: Option<Protocol>)
        ensures
            r == Protocol::of_code(value),
            r is Some ==> r.unwrap().code_spec() == value,
    {
        match value {
            1 => Some(Protocol::IP),
            2 => Some(Protocol::ICMP),
            3 => Some(Protocol::UDPLITE),
            _ => None,
        }
    }

    /// The number that the module writes for this value.
    pub fn code(self) -> (r: i32)
        ensures
            r == self.code_spec(),
            Protocol::of_code(r) == Some(self),
    {
        match self {
            Protocol::IP => 1,
            Protocol::ICMP => 2,
            Protocol::UDPLITE => 3,
        }
    }
}

/// The command that creates a socket.
#[derive(Clone, Copy, Debug, PartialEq, Eq, Structural)]
pub struct CreateSocket {
    /// The address family.
    pub domain: Domain,
    /// The kind of connection.
    pub connection_type: Type,
    /// The protocol under the socket.
    pub protocol: Protocol,
    /// The packet data context, where one is named.
    pub cid: Option<i32>,
}

/// The response to [`CreateSocket`]: the handle of the new socket.
#[derive(Clone, Copy, Debug, PartialEq, Eq, Structural)]
pub struct SocketCreated {
    pub socket_id: u8,
}

impl CreateSocket {
    /// The handle that a reply names: after any whitespace, `+CSOC: `, a
    /// number, any whitespace, and `OK`.
    pub open spec fn socket_of(data: Seq<u8>) -> Result<u8, AtError> {
        let id = Cursor::start().after_whitespace(data).after_identifier(
            data,
            "+CSOC: ".spec_bytes(),
        ).after_integer(data);
        if id.0.after_whitespace(data).after_identifier(data, "OK".spec_bytes()).valid {
            Ok(handle_of(id.1))
        } else {
            Err(AtError::AtParseError)
        }
    }

    fn get_socket_id(data: &[u8]) -> (r: Result<u8, AtError>)
        ensures
            r == Self::socket_of(data@),
    {
        let (cursor, socket_id) = Cursor::new().whitespace(data).identifier(
            data,
            "+CSOC: ".as_bytes(),
        ).integer(data);
        if cursor.whitespace(data).identifier(data, "OK".as_bytes()).valid {
            Ok(to_handle(socket_id))
        } else {
            Err(AtError::AtParseError)
        }
    }
}

impl AtRequest for CreateSocket {
    type Response = SocketCreated;

    open spec fn encoded(&self, capacity: nat) -> Result<Seq<u8>, usize> {
        finished(
            set_text("+CSOC".spec_bytes()) + int_parameter(self.domain.code_spec() as int)
                + int_parameter(self.connection_type.code_spec() as int) + int_parameter(
                self.protocol.code_spec() as int,
            ) + match self.cid {
                Some(cid) => int_parameter(cid as int),
                None => Seq::empty(),
            },
            capacity,
        )
    }

    open spec fn decoded(&self, data: Seq<u8>, r: Result<Self::Response, AtError>) -> bool {
        r == match Self::socket_of(data) {
            Ok(socket_id) => Ok(SocketCreated { socket_id }),
            Err(e) => Err(e),
        }
    }

    open spec fn decoded_untyped(&self, data: Seq<u8>, r: Result<AtResponse, AtError>) -> bool {
        r == match Self::socket_of(data) {
            Ok(socket_id) => Ok(AtResponse::SocketCreated(socket_id)),
            Err(e) => Err(e),
        }
    }

    fn get_command<'a>(&'a self, buffer: &'a mut BufferType) -> (r: Result<&'a [u8], usize>) {
        let builder = SetCommand::begin(buffer, "+CSOC").integer(self.domain.code()).integer(
            self.connection_type.code(),
        ).integer(self.protocol.code());
        match self.cid {
            Some(cid) => builder.integer(cid).finish(),
            None => {
                assert(builder.text() + Seq::<u8>::empty() =~= builder.text());
                builder.finish()
            },
        }
    }

    fn parse_response(&self, data: &[u8]) -> (r: Result<AtResponse, AtError>) {
        match Self::get_socket_id(data) {
            Ok(socket_id) => Ok(AtResponse::SocketCreated(socket_id)),
            Err(e) => Err(e),
        }
    }

    fn parse_response_struct(&self, data: &[u8]) -> (r: Result<Self::Response, AtError>) {
        match Self::get_socket_id(data) {
            Ok(socket_id) => Ok(SocketCreated { socket_id }),
            Err(e) => Err(e),
        }
    }
}

/// The command that connects a socket to a remote address. With port 0
/// nothing is encoded, and the length counted is 0.
#[derive(Clone, Copy, Debug)]
pub struct ConnectSocketToRemote<'a> {
    /// The handle of the socket.
    pub socket_id: u8,
    /// The remote port. Port 0 does not exist.
    pub port: u16,
    /// The remote address.
    pub remote_address: &'a str,
}

impl AtRequest for ConnectSocketToRemote<'_> {
    type Response = ();

    open spec fn encoded(&self, capacity: nat) -> Result<Seq<u8>, usize> {
        if self.port == 0 {
            Err(0)
        } else {
            finished(
                set_text("+CSOCON".spec_bytes()) + int_parameter(self.socket_id as int)
                    + int_parameter(self.port as int) + string_parameter(
                    self.remote_address.spec_bytes(),
                ),
                capacity,
            )
        }
    }

    open spec fn decoded(&self, data: Seq<u8>, r: Result<Self::Response, AtError>) -> bool {
        ok_verified(data, r)
    }

    open spec fn decoded_untyped(&self, data: Seq<u8>, r: Result<AtResponse, AtError>) -> bool {
        ok_verified_untyped(data, r)
    }

    fn get_command<'a>(&'a self, buffer: &'a mut BufferType) -> (r: Result<&'a [u8], usize>) {
        if self.port == 0 {
            return Err(0);
        }
        SetCommand::begin(buffer, "+CSOCON").integer(self.socket_id as i32).integer(
            self.port as i32,
        ).string(self.remote_address.as_bytes()).finish()
    }

    fn parse_response(&self, data: &[u8]) -> (r: Result<AtResponse, AtError>) {
        verify_ok_untyped(data)
    }

    fn parse_response_struct(&self, data: &[u8]) -> (r: Result<Self::Response, AtError>) {
        verify_ok(data)
    }
}

/// The command that sends bytes through a socket. The bytes travel in
/// hexadecimal, and the command states the number of hexadecimal digits.
/// More than `MAX_MESSAGE_SIZE` bytes are not encoded: the length counted
/// is then the largest that there is.
#[derive(Clone, Copy, Debug)]
pub struct SendSocketMessage<'a> {
    /// The handle of the socket.
    pub socket_id: u8,
    /// The bytes to send.
    pub data: &'a [u8],
}

impl AtRequest for SendSocketMessage<'_> {
    type Response = ();

    open spec fn encoded(&self, capacity: nat) -> Result<Seq<u8>, usize> {
        if self.data@.len() > MAX_MESSAGE_SIZE {
            Err(usize::MAX)
        } else {
            finished(
                set_text("+CSOSEND".spec_bytes()) + int_parameter(self.socket_id as int)
                    + int_parameter(2 * self.data@.len() as int) + hex_parameter(self.data@),
                capacity,
            )
        }
    }

    open spec fn decoded(&self, data: Seq<u8>, r: Result<Self::Response, AtError>) -> bool {
        ok_verified(data, r)
    }

    open spec fn decoded_untyped(&self, data: Seq<u8>, r: Result<AtResponse, AtError>) -> bool {
        ok_verified_untyped(data, r)
    }

    fn get_command<'a>(&'a self, buffer: &'a mut BufferType) -> (r: Result<&'a [u8], usize>) {
        if self.data.len() > MAX_MESSAGE_SIZE {
            return Err(usize::MAX);
        }
        SetCommand::begin(buffer, "+CSOSEND").integer(self.socket_id as i32).integer(
            (2 * self.data.len()) as i32,
        ).hex(self.data).finish()
    }

    fn parse_response(&self, data: &[u8]) -> (r: Result<AtResponse, AtError>) {
        verify_ok_untyped(data)
    }

    fn parse_response_struct(&self, data: &[u8]) -> (r: Result<Self::Response, AtError>) {
        verify_ok(data)
    }
}

/// The command that sends a text through a socket as it is, between quotes.
#[derive(Clone, Copy, Debug)]
pub struct SendSocketString<'a> {
    /// The handle of the socket.
    pub socket_id: u8,
    /// The text to send, in hexadecimal.
    pub data: &'a str,
}

impl AtRequest for SendSocketString<'_> {
    type Response = ();

    open spec fn encoded(&self, capacity: nat) -> Result<Seq<u8>, usize> {
        finished(
            set_text("+CSOSEND".spec_bytes()) + int_parameter(self.socket_id as int)
                + int_parameter(0) + string_parameter(self.data.spec_bytes()),
            capacity,
        )
    }

    open spec fn decoded(&self, data: Seq<u8>, r: Result<Self::Response, AtError>) -> bool {
        ok_verified(data, r)
    }

    open spec fn decoded_untyped(&self, data: Seq<u8>, r: Result<AtResponse, AtError>) -> bool {
        ok_verified_untyped(data, r)
    }

    fn get_command<'a>(&'a self, buffer: &'a mut BufferType) -> (r: Result<&'a [u8], usize>) {
        SetCommand::begin(buffer, "+CSOSEND").integer(self.socket_id as i32).integer(0).string(
            self.data.as_bytes(),
        ).finish()
    }

    fn parse_response(&self, data: &[u8]) -> (r: Result<AtResponse, AtError>) {
        verify_ok_untyped(data)
    }

    fn parse_response_struct(&self, data: &[u8]) -> (r: Result<Self::Response, AtError>) {
        verify_ok(data)
    }
}

/// The command that closes a socket.
#[derive(Clone, Copy, Debug, PartialEq, Eq, Structural)]
pub struct CloseSocket {
    /// The handle of the socket.
    pub socket_id: u8,
}

impl AtRequest for CloseSocket {
    type Response = ();

    open spec fn encoded(&self, capacity: nat) -> Result<Seq<u8>, usize> {
        finished(set_text("+CSOCL".spec_bytes()) + int_parameter(self.socket_id as int), capacity)
    }

    open spec fn decoded(&self, data: Seq<u8>, r: Result<Self::Response, AtError>) -> bool {
        acknowledged(data, r)
    }

    open spec fn decoded_untyped(&self, data: Seq<u8>, r: Result<AtResponse, AtError>) -> bool {
        acknowledged_untyped(r)
    }

    fn get_command<'a>(&'a self, buffer: &'a mut BufferType) -> (r: Result<&'a [u8], usize>) {
        SetCommand::begin(buffer, "+CSOCL").integer(self.socket_id as i32).finish()
    }

    fn parse_response(&self, _data: &[u8]) -> (r: Result<AtResponse, AtError>) {
        Ok(AtResponse::Okay)
    }

    fn parse_response_struct(&self, data: &[u8]) -> (r: Result<Self::Response, AtError>) {
        super::verify_acknowledged(data)
    }
}

} // verus!
