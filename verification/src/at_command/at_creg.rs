//! Registration in the circuit network: `+CREG`.

use vstd::prelude::*;
use vstd::string::StringSliceAdditionalSpecFns;
use crate::at_command::network_registration_status::{
    registration_of, to_registration, NetworkRegistrationStatus, UnsolicitedResultCodes,
};
use crate::at_command::{
    acknowledged, acknowledged_untyped, int_pair_reply, parse_int_pair_reply, AtRequest,
    AtResponse, BufferType,
};
use crate::builder::{finished, int_parameter, query_command, query_text, set_text, SetCommand};
use crate::AtError;

verus! {

/// The query for the registration state.
#[derive(Clone, Copy, Debug)]
pub struct NetworkRegistration;

/// The response to [`NetworkRegistration`].
#[derive(Clone, Copy, Debug, PartialEq, Eq, Structural)]
pub struct NetworkRegistrationResponse {
    pub unsolicited_result: UnsolicitedResultCodes,
    pub status: NetworkRegistrationStatus,
}

impl NetworkRegistration {
    /// What a `+CREG` reply reports.
    pub open spec fn data_of(data: Seq<u8>) -> Result<
        (UnsolicitedResultCodes, NetworkRegistrationStatus),
        AtError,
    > {
        registration_of(
            int_pair_reply(data, "\r\n+CREG: ".spec_bytes(), "\r\n\r\nOK\r".spec_bytes()),
        )
    }

    fn get_data(data: &[u8]) -> (r: Result<
        (UnsolicitedResultCodes, NetworkRegistrationStatus),
        AtError,
    >)
        ensures
            r == Self::data_of(data@),
    {
        to_registration(parse_int_pair_reply(data, "\r\n+CREG: ", "\r\n\r\nOK\r"))
    }
}

impl AtRequest for NetworkRegistration {
    type Response = NetworkRegistrationResponse;

    open spec fn encoded(&self, capacity: nat) -> Result<Seq<u8>, usize> {
        finished(query_text("+CREG".spec_bytes()), capacity)
    }

    open spec fn decoded(&self, data: Seq<u8>, r: Result<Self::Response, AtError>) -> bool {
        r == match Self::data_of(data) {
            Ok((unsolicited_result, status)) => Ok(
                NetworkRegistrationResponse { unsolicited_result, status },
            ),
            Err(e) => Err(e),
        }
    }

    open spec fn decoded_untyped(&self, data: Seq<u8>, r: Result<AtResponse, AtError>) -> bool {
        r == match Self::data_of(data) {
            Ok((unsolicited, status)) => Ok(AtResponse::NetworkRegistration(unsolicited, status)),
            Err(e) => Err(e),
        }
    }

    fn get_command<'a>(&'a self, buffer: &'a mut BufferType) -> (r: Result<&'a [u8], usize>) {
        query_command(buffer, "+CREG")
    }

    fn parse_response(&self, data: &[u8]) -> (r: Result<AtResponse, AtError>) {
        match Self::get_data(data) {
            Ok((unsolicited, status)) => Ok(AtResponse::NetworkRegistration(unsolicited, status)),
            Err(e) => Err(e),
        }
    }

    fn parse_response_struct(&self, data: &[u8]) -> (r: Result<Self::Response, AtError>) {
        match Self::get_data(data) {
            Ok((unsolicited_result, status)) => Ok(
                NetworkRegistrationResponse { unsolicited_result, status },
            ),
            Err(e) => Err(e),
        }
    }
}

/// A command that the module rejects: it sets the registration reports to a
/// value that does not exist. It serves to provoke a failure reply.
#[derive(Clone, Copy, Debug)]
pub struct AtCregError;

impl AtRequest for AtCregError {
    type Response = ();

    open spec fn encoded(&self, capacity: nat) -> Result<Seq<u8>, usize> {
        finished(set_text("+CREG".spec_bytes()) + int_parameter(5), capacity)
    }

    open spec fn decoded(&self, data: Seq<u8>, r: Result<Self::Response, AtError>) -> bool {
        acknowledged(data, r)
    }

    open spec fn decoded_untyped(&self, data: Seq<u8>, r: Result<AtResponse, AtError>) -> bool {
        acknowledged_untyped(r)
    }

    fn get_command<'a>(&'a self, buffer: &'a mut BufferType) -> (r: Result<&'a [u8], usize>) {
        SetCommand::begin(buffer, "+CREG").integer(5).finish()
    }

    fn parse_response(&self, _data: &[u8]) -> (r: Result<AtResponse, AtError>) {
        Ok(AtResponse::Okay)
    }

    fn parse_response_struct(&self, data: &[u8]) -> (r: Result<Self::Response, AtError>) {
        super::verify_acknowledged(data)
    }
}

} // verus!
