//! Whether the module announces that it goes to sleep: `+CPSMSTATUS`.

use vstd::prelude::*;
use vstd::string::StringSliceAdditionalSpecFns;
use crate::at_command::{int_reply, parse_int_reply, AtRequest, AtResponse, BufferType};
use crate::builder::{finished, query_command, query_text};
use crate::AtError;

verus! {

/// Whether the module announces that it goes to sleep.
#[derive(Clone, Copy, Debug, PartialEq, Eq, Structural)]
pub enum SleepIndication {
    /// No announcement.
    Disabled,
    /// The module announces its sleep.
    Enabled,
}

impl SleepIndication {
    /// The value that the module writes as `value`, if there is one.
    pub open spec fn of_code(value: i32) -> Option<SleepIndication> {
        if value == 0 {
            Some(SleepIndication::Disabled)
        } else if value == 1 {
            Some(SleepIndication::Enabled)
        } else {
            None
        }
    }

    /// The number that the module writes for this value.
    pub open spec fn code_spec(self) -> i32 {
        match self {
            SleepIndication::Disabled => 0,
            SleepIndication::Enabled => 1,
        }
    }

    /// Reads the number `value` of a reply.
    pub fn from_code(value: i32) -> (r: Option<SleepIndication>)
        ensures
            r == SleepIndication::of_code(value),
            r is Some ==> r.unwrap().code_spec() == value,
    {
        match value {
            0 => Some(SleepIndication::Disabled),
            1 => Some(SleepIndication::Enabled),
            _ => None,
        }
    }

    /// The number that the module writes for this value.
    pub fn code(self) -> (r: i32)
        ensures
            r == self.code_spec(),
            SleepIndication::of_code(r) == Some(self),
    {
        match self {
            SleepIndication::Disabled => 0,
            SleepIndication::Enabled => 1,
        }
    }
}

/// The query for the sleep indication.
#[derive(Clone, Copy, Debug)]
pub struct SleepIndicationStatus;

impl SleepIndicationStatus {
    /// The setting that a reply reports.
    pub open spec fn status_of(data: Seq<u8>) -> Result<SleepIndication, AtError> {
        match int_reply(data, "\r\n+CPSMSTATUS: ".spec_bytes(), "\r\n\r\nOK".spec_bytes()) {
            Ok(state) => match SleepIndication::of_code(state) {
                Some(state) => Ok(state),
                None => Err(AtError::AtParseError),
            },
            Err(e) => Err(e),
        }
    }

    fn get_status(data: &[u8]) -> (r: Result<SleepIndication, AtError>)
        ensures
            r == Self::status_of(data@),
    {
        match parse_int_reply(data, "\r\n+CPSMSTATUS: ", "\r\n\r\nOK") {
            Ok(state) => match SleepIndication::from_code(state) {
                Some(state) => Ok(state),
                None => Err(AtError::AtParseError),
            },
            Err(e) => Err(e),
        }
    }
}

impl AtRequest for SleepIndicationStatus {
    type Response = SleepIndication;

    open spec fn encoded(&self, capacity: nat) -> Result<Seq<u8>, usize> {
        finished(query_text("+CPSMSTATUS".spec_bytes()), capacity)
    }

    open spec fn decoded(&self, data: Seq<u8>, r: Result<Self::Response, AtError>) -> bool {
        r == Self::status_of(data)
    }

    open spec fn decoded_untyped(&self, data: Seq<u8>, r: Result<AtResponse, AtError>) -> bool {
        r == match Self::status_of(data) {
            Ok(state) => Ok(AtResponse::SleepIndication(state)),
            Err(e) => Err(e),
        }
    }

    fn get_command<'a>(&'a self, buffer: &'a mut BufferType) -> (r: Result<&'a [u8], usize>) {
        query_command(buffer, "+CPSMSTATUS")
    }

    fn parse_response(&self, data: &[u8]) -> (r: Result<AtResponse, AtError>) {
        match Self::get_status(data) {
            Ok(state) => Ok(AtResponse::SleepIndication(state)),
            Err(e) => Err(e),
        }
    }

    fn parse_response_struct(&self, data: &[u8]) -> (r: Result<Self::Response, AtError>) {
        Self::get_status(data)
    }
}

} // verus!
