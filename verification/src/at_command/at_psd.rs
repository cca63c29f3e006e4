//! The default packet data connection: `*MCGDEFCONT`.

use vstd::prelude::*;
use vstd::string::StringSliceAdditionalSpecFns;
use crate::at_command::{
    acknowledged_untyped, ok_verified, verify_ok, AtRequest, AtResponse, BufferType,
};
use crate::builder::{finished, optional_string_parameter, set_text, string_parameter, SetCommand};
use crate::AtError;

verus! {

/// The type of a packet data connection.
#[derive(Clone, Copy, Debug, PartialEq, Eq, Structural)]
pub enum PdpType {
    IP,
    IPV6,
    IPV4V6,
    NonIp,
}

impl PdpType {
    /// The type as the module writes it.
    pub open spec fn text(self) -> Seq<u8> {
        match self {
            PdpType::IP => "IP".spec_bytes(),
            PdpType::IPV6 => "IPV6".spec_bytes(),
            PdpType::IPV4V6 => "IPV4V6".spec_bytes(),
            PdpType::NonIp => "Non-IP".spec_bytes(),
        }
    }

    /// The type as the module writes it.
    pub fn as_str(&self) -> (r: &'static str)
        ensures
            r.spec_bytes() == self.text(),
    {
        match self {
            PdpType::IP => "IP",
            PdpType::IPV6 => "IPV6",
            PdpType::IPV4V6 => "IPV4V6",
            PdpType::NonIp => "Non-IP",
        }
    }
}

/// The command that sets the default packet data connection.
#[derive(Clone, Copy, Debug)]
pub struct SetPSDSettings<'a> {
    pub pdp_type: PdpType,
    pub apn: Option<&'a str>,
    pub username: Option<&'a str>,
    pub password: Option<&'a str>,
}

/// What a text that may be left out is on the wire.
pub open spec fn optional_text_parameter(text: Option<&str>) -> Seq<u8> {
    optional_string_parameter(
        match text {
            Some(text) => Some(text.spec_bytes()),
            None => None,
        },
    )
}

/// The bytes of a text that may be left out.
pub fn optional_bytes<'a>(text: Option<&'a str>) -> (r: Option<&'a [u8]>)
    ensures
        match (text, r) {
            (Some(text), Some(bytes)) => bytes@ == text.spec_bytes(),
            (None, None) => true,
            _ => false,
        },
{
    match text {
        Some(text) => Some(text.as_bytes()),
        None => None,
    }
}

impl AtRequest for SetPSDSettings<'_> {
    type Response = ();

    open spec fn encoded(&self, capacity: nat) -> Result<Seq<u8>, usize> {
        finished(
            set_text("*MCGDEFCONT".spec_bytes()) + string_parameter(self.pdp_type.text())
                + optional_text_parameter(self.apn) + optional_text_parameter(self.username)
                + optional_text_parameter(self.password),
            capacity,
        )
    }

    open spec fn decoded(&self, data: Seq<u8>, r: Result<Self::Response, AtError>) -> bool {
        ok_verified(data, r)
    }

    open spec fn decoded_untyped(&self, data: Seq<u8>, r: Result<AtResponse, AtError>) -> bool {
        acknowledged_untyped(r)
    }

    fn get_command<'a>(&'a self, buffer: &'a mut BufferType) -> (r: Result<&'a [u8], usize>) {
        SetCommand::begin(buffer, "*MCGDEFCONT").string(
            self.pdp_type.as_str().as_bytes(),
        ).optional_string(optional_bytes(self.apn)).optional_string(
            optional_bytes(self.username),
        ).optional_string(optional_bytes(self.password)).finish()
    }

    fn parse_response(&self, _data: &[u8]) -> (r: Result<AtResponse, AtError>) {
        Ok(AtResponse::Okay)
    }

    fn parse_response_struct(&self, data: &[u8]) -> (r: Result<Self::Response, AtError>) {
        verify_ok(data)
    }
}

} // verus!
