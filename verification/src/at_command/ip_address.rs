//! The local IP address: `+CIFSR`.

use vstd::prelude::*;
use vstd::string::StringSliceAdditionalSpecFns;
use crate::at_command::{
    fails_with, int_reply, parse_int_reply, parse_text_reply, text_reply, AtRequest, AtResponse,
    BufferType,
};
use crate::bounded::BoundedText;
use crate::builder::{execute_command, execute_text, finished};
use crate::AtError;

verus! {

/// The request for the local IP address.
#[derive(Clone, Copy, Debug, PartialEq, Eq, Structural)]
pub struct LocalIPAddress;

/// The number of bytes that an IP address is written with at most.
pub const MAX_IP_SIZE: usize = 39;

/// The response to [`LocalIPAddress`].
#[derive(Debug)]
pub struct LocalIpAddressResponse {
    pub ip: BoundedText<MAX_IP_SIZE>,
}

impl LocalIPAddress {
    /// The address of a reply, as text.
    pub open spec fn address_of(data: Seq<u8>) -> Result<Seq<u8>, AtError> {
        text_reply(data, "\r\n+CIFSR: ".spec_bytes(), "\r\n\r\nOK".spec_bytes())
    }
}

impl AtRequest for LocalIPAddress {
    type Response = LocalIpAddressResponse;

    open spec fn encoded(&self, capacity: nat) -> Result<Seq<u8>, usize> {
        finished(execute_text("+CIFSR".spec_bytes()), capacity)
    }

    open spec fn decoded(&self, data: Seq<u8>, r: Result<Self::Response, AtError>) -> bool {
        match Self::address_of(data) {
            Ok(text) => if BoundedText::<MAX_IP_SIZE>::admits(text.len()) {
                r is Ok && r.unwrap().ip@ == text
            } else {
                fails_with(r, AtError::CapacityError)
            },
            Err(e) => fails_with(r, e),
        }
    }

    open spec fn decoded_untyped(&self, data: Seq<u8>, r: Result<AtResponse, AtError>) -> bool {
        r == match int_reply(data, "\r\n+CIFSR: ".spec_bytes(), "\r\n\r\nOK".spec_bytes()) {
            Ok(local_ip) => Ok(AtResponse::LocalIPAddress(local_ip)),
            Err(e) => Err(e),
        }
    }

    fn get_command<'a>(&'a self, buffer: &'a mut BufferType) -> (r: Result<&'a [u8], usize>) {
        execute_command(buffer, "+CIFSR")
    }

    fn parse_response(&self, data: &[u8]) -> (r: Result<AtResponse, AtError>) {
        match parse_int_reply(data, "\r\n+CIFSR: ", "\r\n\r\nOK") {
            Ok(local_ip) => Ok(AtResponse::LocalIPAddress(local_ip)),
            Err(e) => Err(e),
        }
    }

    fn parse_response_struct(&self, data: &[u8]) -> (r: Result<Self::Response, AtError>) {
        match parse_text_reply(data, "\r\n+CIFSR: ", "\r\n\r\nOK") {
            Ok(text) => match BoundedText::new(text) {
                Ok(ip) => Ok(LocalIpAddressResponse { ip }),
                Err(e) => Err(e),
            },
            Err(e) => Err(e),
        }
    }
}

} // verus!
