//! The packet domain: whether the module is attached to the GPRS service.

use vstd::prelude::*;
use vstd::string::StringSliceAdditionalSpecFns;
use crate::at_command::{int_reply, parse_int_reply, AtRequest, AtResponse, BufferType};
use crate::builder::{finished, query_command, query_text};
use crate::AtError;

verus! {

/// Whether the module is attached to the GPRS service.
#[derive(Clone, Copy, Debug, PartialEq, Eq, Structural)]
pub enum GPRSServiceState {
    /// Reported as 0.
    Detached,
    /// Reported as 1.
    Attached,
}

/// The query for the attachment state.
#[derive(Clone, Copy, Debug)]
pub struct GPRSServiceStatus;

/// The response to [`GPRSServiceStatus`].
#[derive(Clone, Copy, Debug, PartialEq, Eq, Structural)]
pub struct PacketDomainAttachmentState {
    pub state: GPRSServiceState,
}

impl GPRSServiceStatus {
    /// The state that a `+CGATT` reply reports: 1 is attached, 0 is
    /// detached, and any other number is no state.
    pub open spec fn state_of(data: Seq<u8>) -> Result<GPRSServiceState, AtError> {
        match int_reply(data, "\r\n+CGATT: ".spec_bytes(), "\r\n\r\nOK".spec_bytes()) {
            Ok(state) => if state == 1 {
                Ok(GPRSServiceState::Attached)
            } else if state == 0 {
                Ok(GPRSServiceState::Detached)
            } else {
                Err(AtError::AtParseError)
            },
            Err(e) => Err(e),
        }
    }

    fn parse_state(data: &[u8]) -> (r: Result<GPRSServiceState, AtError>)
        ensures
            r == Self::state_of(data@),
    {
        match parse_int_reply(data, "\r\n+CGATT: ", "\r\n\r\nOK") {
            Ok(1) => Ok(GPRSServiceState::Attached),
            Ok(0) => Ok(GPRSServiceState::Detached),
            Ok(_) => Err(AtError::AtParseError),
            Err(e) => Err(e),
        }
    }
}

impl AtRequest for GPRSServiceStatus {
    type Response = PacketDomainAttachmentState;

    open spec fn encoded(&self, capacity: nat) -> Result<Seq<u8>, usize> {
        finished(query_text("+CGATT".spec_bytes()), capacity)
    }

    open spec fn decoded(&self, data: Seq<u8>, r: Result<Self::Response, AtError>) -> bool {
        r == match Self::state_of(data) {
            Ok(state) => Ok(PacketDomainAttachmentState { state }),
            Err(e) => Err(e),
        }
    }

    open spec fn decoded_untyped(&self, data: Seq<u8>, r: Result<AtResponse, AtError>) -> bool {
        r == match Self::state_of(data) {
            Ok(state) => Ok(AtResponse::PacketDomainAttachmentState(state)),
            Err(e) => Err(e),
        }
    }

    fn get_command<'a>(&'a self, buffer: &'a mut BufferType) -> (r: Result<&'a [u8], usize>) {
        query_command(buffer, "+CGATT")
    }

    fn parse_response(&self, data: &[u8]) -> (r: Result<AtResponse, AtError>) {
        match Self::parse_state(data) {
            Ok(state) => Ok(AtResponse::PacketDomainAttachmentState(state)),
            Err(e) => Err(e),
        }
    }

    fn parse_response_struct(&self, data: &[u8]) -> (r: Result<Self::Response, AtError>) {
        match Self::parse_state(data) {
            Ok(state) => Ok(PacketDomainAttachmentState { state }),
            Err(e) => Err(e),
        }
    }
}


} // verus!
