//! Driver core for an NB-IoT modem that speaks an ASCII AT-command protocol.
//!
//! The crate holds the protocol's decisions and leaves the serial line to its
//! caller: commands are encoded into bytes to transmit, bytes that were read
//! are framed into replies, and replies are decoded into typed values. The
//! session engine and the MQTT and socket lifecycles are state machines that
//! say which step is legal and what the next state is.

use vstd::prelude::*;
use crate::at_command::at_cpin::PinStatus;
use crate::at_command::http::HttpClient;

pub mod at_command;
pub mod bounded;
pub mod builder;
pub mod contexts;
pub mod frame;
pub mod modem;
pub mod nal;
pub mod utils;
pub mod wire;

verus! {

/// Capacity, in bytes, of the scratch buffer a command is encoded into and of
/// the buffer a reply is collected in.
pub const BUFFER_SIZE: usize = 512;

/// Line feed.
pub const LF: u8 = 10;

/// Carriage return.
pub const CR: u8 = 13;

/// Everything that can go wrong between a command and its typed response.
#[derive(Clone, Copy, Debug, PartialEq, Eq, Structural)]
pub enum AtError {
    /// More lines came back than a reply may have.
    TooManyReturnedLines,
    /// The module answered with its failure terminator; the value is the
    /// number of bytes consumed up to the terminator's end.
    ErrorReply(usize),
    /// An HTTP session could not be created for this client.
    CreateHTTPSessionFailed(HttpClient),
    /// An MQTT operation failed.
    MqttFailure,
    /// The transport failed for good while a reply was awaited.
    NotReady,
    /// The transport failed to write or to probe.
    IOError,
    /// A reply did not match the grammar of the command it answers.
    AtParseError,
    /// A socket could not be connected.
    ConnectSocketError,
    /// Something did not fit: a command in the scratch buffer, a reply in the
    /// read buffer, or a text in its bounded field.
    CapacityError,
    /// The module's clock text is no date and time.
    ParseClockError,
    /// A digital output line could not be driven.
    HALError,
    /// The operation is not legal in the module's current state.
    IllegalModuleState,
    /// The SIM is in a state that a PIN cannot unlock; the value is that
    /// state.
    IllegalPinStatus(PinStatus),
}

} // verus!
