//! The SIM's PIN: asking what the SIM waits for, and entering the PIN.

use vstd::prelude::*;
use vstd::string::StringSliceAdditionalSpecFns;
use vstd::std_specs::convert::FromSpecImpl;
use crate::at_command::{
    acknowledged, acknowledged_untyped, parse_text_reply, text_reply, AtRequest, AtResponse,
    BufferType,
};
use crate::builder::{finished, int_parameter, query_command, query_text, set_text, SetCommand};
use crate::wire::bytes_equal;
use crate::AtError;

verus! {

/// The query for what the SIM waits for.
#[derive(Clone, Copy, Debug)]
pub struct PINRequired;

/// What the SIM waits for.
#[derive(Clone, Copy, Debug, PartialEq, Eq, Structural)]
pub enum PinStatus {
    /// The module writes `READY`.
    Ready,
    /// The module writes `SIM PIN`.
    SimPin,
    /// The module writes `SIM PUK`.
    SimPuk,
    /// The module writes `PH_SIM PIN`.
    PhSimPin,
    /// The module writes `PH_SIM PUK`.
    PhSimPuk,
    /// The module writes `SIM PIN2`.
    SimPin2,
    /// The module writes `SIM PUK2`.
    SimPuk2,
    /// The module writes `PH-NET PIN`.
    PhNetPin,
    /// The module writes `PH-NETSUB PIN`.
    PhNetsubPin,
    /// The module writes `PH-SP PIN`.
    PhSpPin,
    /// The module writes `PH-CORP PIN`.
    PhCorpPin,
    /// Any other text.
    Unkown,
}

impl PinStatus {
    /// The state that the module writes as `text`.
    pub open spec fn of_text(text: Seq<u8>) -> PinStatus {
        if text == "READY".spec_bytes() {
            PinStatus::Ready
        } else if text == "SIM PIN".spec_bytes() {
            PinStatus::SimPin
        } else if text == "SIM PUK".spec_bytes() {
            PinStatus::SimPuk
        } else if text == "PH_SIM PIN".spec_bytes() {
            PinStatus::PhSimPin
        } else if text == "PH_SIM PUK".spec_bytes() {
            PinStatus::PhSimPuk
        } else if text == "SIM PIN2".spec_bytes() {
            PinStatus::SimPin2
        } else if text == "SIM PUK2".spec_bytes() {
            PinStatus::SimPuk2
        } else if text == "PH-NET PIN".spec_bytes() {
            PinStatus::PhNetPin
        } else if text == "PH-NETSUB PIN".spec_bytes() {
            PinStatus::PhNetsubPin
        } else if text == "PH-SP PIN".spec_bytes() {
            PinStatus::PhSpPin
        } else if text == "PH-CORP PIN".spec_bytes() {
            PinStatus::PhCorpPin
        } else {
            PinStatus::Unkown
        }
    }
}

impl From<&str> for PinStatus {
    fn from(value: &str) -> (r: PinStatus) {
        let text = value.as_bytes();
        if bytes_equal(text, "READY".as_bytes()) {
            PinStatus::Ready
        } else if bytes_equal(text, "SIM PIN".as_bytes()) {
            PinStatus::SimPin
        } else if bytes_equal(text, "SIM PUK".as_bytes()) {
            PinStatus::SimPuk
        } else if bytes_equal(text, "PH_SIM PIN".as_bytes()) {
            PinStatus::PhSimPin
        } else if bytes_equal(text, "PH_SIM PUK".as_bytes()) {
            PinStatus::PhSimPuk
        } else if bytes_equal(text, "SIM PIN2".as_bytes()) {
            PinStatus::SimPin2
        } else if bytes_equal(text, "SIM PUK2".as_bytes()) {
            PinStatus::SimPuk2
        } else if bytes_equal(text, "PH-NET PIN".as_bytes()) {
            PinStatus::PhNetPin
        } else if bytes_equal(text, "PH-NETSUB PIN".as_bytes()) {
            PinStatus::PhNetsubPin
        } else if bytes_equal(text, "PH-SP PIN".as_bytes()) {
            PinStatus::PhSpPin
        } else if bytes_equal(text, "PH-CORP PIN".as_bytes()) {
            PinStatus::PhCorpPin
        } else {
            PinStatus::Unkown
        }
    }
}

impl FromSpecImpl<&str> for PinStatus {
    open spec fn obeys_from_spec() -> bool {
        true
    }

    open spec fn from_spec(value: &str) -> PinStatus {
        PinStatus::of_text(value.spec_bytes())
    }
}

impl PINRequired {
    /// The state that a `+CPIN` reply reports.
    pub open spec fn status_of(data: Seq<u8>) -> Result<PinStatus, AtError> {
        match text_reply(data, "+CPIN: ".spec_bytes(), "\r\n\r\nOK".spec_bytes()) {
            Ok(text) => Ok(PinStatus::of_text(text)),
            Err(e) => Err(e),
        }
    }

    fn get_pin_response(data: &[u8]) -> (r: Result<PinStatus, AtError>)
        ensures
            r == Self::status_of(data@),
    {
        match parse_text_reply(data, "+CPIN: ", "\r\n\r\nOK") {
            Ok(text) => Ok(PinStatus::from(text)),
            Err(e) => Err(e),
        }
    }
}

impl AtRequest for PINRequired {
    type Response = PinStatus;

    open spec fn encoded(&self, capacity: nat) -> Result<Seq<u8>, usize> {
        finished(query_text("+CPIN".spec_bytes()), capacity)
    }

    open spec fn decoded(&self, data: Seq<u8>, r: Result<Self::Response, AtError>) -> bool {
        r == Self::status_of(data)
    }

    open spec fn decoded_untyped(&self, data: Seq<u8>, r: Result<AtResponse, AtError>) -> bool {
        r == match Self::status_of(data) {
            Ok(status) => Ok(AtResponse::PinStatus(status)),
            Err(e) => Err(e),
        }
    }

    fn get_command<'a>(&'a self, buffer: &'a mut BufferType) -> (r: Result<&'a [u8], usize>) {
        query_command(buffer, "+CPIN")
    }

    fn parse_response(&self, data: &[u8]) -> (r: Result<AtResponse, AtError>) {
        match Self::get_pin_response(data) {
            Ok(status) => Ok(AtResponse::PinStatus(status)),
            Err(e) => Err(e),
        }
    }

    fn parse_response_struct(&self, data: &[u8]) -> (r: Result<Self::Response, AtError>) {
        Self::get_pin_response(data)
    }
}

/// The command that enters the PIN.
#[derive(Clone, Copy, Debug)]
pub struct EnterPIN {
    pub pin: u16,
}

impl AtRequest for EnterPIN {
    type Response = ();

    open spec fn encoded(&self, capacity: nat) -> Result<Seq<u8>, usize> {
        finished(set_text("+CPIN".spec_bytes()) + int_parameter(self.pin as int), capacity)
    }

    open spec fn decoded(&self, data: Seq<u8>, r: Result<Self::Response, AtError>) -> bool {
        acknowledged(data, r)
    }

    open spec fn decoded_untyped(&self, data: Seq<u8>, r: Result<AtResponse, AtError>) -> bool {
        acknowledged_untyped(r)
    }

    fn get_command<'a>(&'a self, buffer: &'a mut BufferType) -> (r: Result<&'a [u8], usize>) {
        SetCommand::begin(buffer, "+CPIN").integer(self.pin as i32).finish()
    }

    fn parse_response(&self, _data: &[u8]) -> (r: Result<AtResponse, AtError>) {
        Ok(AtResponse::Okay)
    }

    fn parse_response_struct(&self, data: &[u8]) -> (r: Result<Self::Response, AtError>) {
        super::verify_acknowledged(data)
    }
}

} // verus!
