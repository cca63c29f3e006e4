//! The power saving mode: `+CPSMS`.

use vstd::prelude::*;
use vstd::string::StringSliceAdditionalSpecFns;
use crate::at_command::{
    int_pair_reply, int_reply, parse_int_pair_reply, parse_int_reply, AtRequest, AtResponse,
    BufferType,
};
use crate::builder::{finished, query_command, query_text, set_text, SetCommand};
use crate::AtError;

verus! {

/// The state of the power saving mode.
#[derive(Clone, Copy, Debug, PartialEq, Eq, Structural)]
pub enum PowerSavingModeState {
    /// Power saving is off.
    Disabled,
    /// Power saving is on.
    Enabled,
    /// Power saving is off and its settings are discarded.
    Discard,
}

impl PowerSavingModeState {
    /// The value that the module writes as `value`, if there is one.
    pub open spec fn of_code(value: i32) -> Option<PowerSavingModeState> {
        if value == 0 {
            Some(PowerSavingModeState::Disabled)
        } else if value == 1 {
            Some(PowerSavingModeState::Enabled)
        } else if value == 2 {
            Some(PowerSavingModeState::Discard)
        } else {
            None
        }
    }

    /// The number that the module writes for this value.
    pub open spec fn code_spec(self) -> i32 {
        match self {
            PowerSavingModeState::Disabled => 0,
            PowerSavingModeState::Enabled => 1,
            PowerSavingModeState::Discard => 2,
        }
    }

    /// Reads the number `value` of a reply.
    pub fn from_code(value: i32) -> (r: Option<PowerSavingModeState>)
        ensures
            r == PowerSavingModeState::of_code(value),
            r is Some ==> r.unwrap().code_spec() == value,
    {
        match value {
            0 => Some(PowerSavingModeState::Disabled),
            1 => Some(PowerSavingModeState::Enabled),
            2 => Some(PowerSavingModeState::Discard),
            _ => None,
        }
    }

    /// The number that the module writes for this value.
    pub fn code(self) -> (r: i32)
        ensures
            r == self.code_spec(),
            PowerSavingModeState::of_code(r) == Some(self),
    {
        match self {
            PowerSavingModeState::Disabled => 0,
            PowerSavingModeState::Enabled => 1,
            PowerSavingModeState::Discard => 2,
        }
    }
}

/// The query for the power saving mode.
#[derive(Clone, Copy, Debug)]
pub struct GetPowerSavingMode;

impl GetPowerSavingMode {
    /// The state that a reply to the query reports.
    pub open spec fn state_of(data: Seq<u8>) -> Result<PowerSavingModeState, AtError> {
        match int_reply(data, "\r\n+CPSMS: ".spec_bytes(), "\r\n\r\nOK".spec_bytes()) {
            Ok(state) => match PowerSavingModeState::of_code(state) {
                Some(state) => Ok(state),
                None => Err(AtError::AtParseError),
            },
            Err(e) => Err(e),
        }
    }

    fn parse_state(data: &[u8]) -> (r: Result<PowerSavingModeState, AtError>)
        ensures
            r == Self::state_of(data@),
    {
        match parse_int_reply(data, "\r\n+CPSMS: ", "\r\n\r\nOK") {
            Ok(state) => match PowerSavingModeState::from_code(state) {
                Some(state) => Ok(state),
                None => Err(AtError::AtParseError),
            },
            Err(e) => Err(e),
        }
    }
}

impl AtRequest for GetPowerSavingMode {
    type Response = PowerSavingModeState;

    open spec fn encoded(&self, capacity: nat) -> Result<Seq<u8>, usize> {
        finished(query_text("+CPSMS".spec_bytes()), capacity)
    }

    open spec fn decoded(&self, data: Seq<u8>, r: Result<Self::Response, AtError>) -> bool {
        r == Self::state_of(data)
    }

    open spec fn decoded_untyped(&self, data: Seq<u8>, r: Result<AtResponse, AtError>) -> bool {
        r == match Self::state_of(data) {
            Ok(state) => Ok(AtResponse::PowerSavingMode(state)),
            Err(e) => Err(e),
        }
    }

    fn get_command<'a>(&'a self, buffer: &'a mut BufferType) -> (r: Result<&'a [u8], usize>) {
        query_command(buffer, "+CPSMS")
    }

    fn parse_response(&self, data: &[u8]) -> (r: Result<AtResponse, AtError>) {
        match Self::parse_state(data) {
            Ok(state) => Ok(AtResponse::PowerSavingMode(state)),
            Err(e) => Err(e),
        }
    }

    fn parse_response_struct(&self, data: &[u8]) -> (r: Result<Self::Response, AtError>) {
        Self::parse_state(data)
    }
}

/// The command that sets the power saving mode, without parameters.
#[derive(Clone, Copy, Debug)]
pub struct SetPowerSavingMode;

impl SetPowerSavingMode {
    /// The state that a reply to the command reports; a second number follows it and is not kept.
    pub open spec fn state_of(data: Seq<u8>) -> Result<PowerSavingModeState, AtError> {
        match int_pair_reply(data, "\r\n+CPSMS: ".spec_bytes(), "\r\n\r\nOK".spec_bytes()) {
            Ok((state, _)) => match PowerSavingModeState::of_code(state) {
                Some(state) => Ok(state),
                None => Err(AtError::AtParseError),
            },
            Err(e) => Err(e),
        }
    }

    fn parse_state(data: &[u8]) -> (r: Result<PowerSavingModeState, AtError>)
        ensures
            r == Self::state_of(data@),
    {
        match parse_int_pair_reply(data, "\r\n+CPSMS: ", "\r\n\r\nOK") {
            Ok((state, _)) => match PowerSavingModeState::from_code(state) {
                Some(state) => Ok(state),
                None => Err(AtError::AtParseError),
            },
            Err(e) => Err(e),
        }
    }
}

impl AtRequest for SetPowerSavingMode {
    type Response = PowerSavingModeState;

    open spec fn encoded(&self, capacity: nat) -> Result<Seq<u8>, usize> {
        finished(set_text("+CPSMS".spec_bytes()), capacity)
    }

    open spec fn decoded(&self, data: Seq<u8>, r: Result<Self::Response, AtError>) -> bool {
        r == Self::state_of(data)
    }

    open spec fn decoded_untyped(&self, data: Seq<u8>, r: Result<AtResponse, AtError>) -> bool {
        r == match Self::state_of(data) {
            Ok(state) => Ok(AtResponse::PowerSavingMode(state)),
            Err(e) => Err(e),
        }
    }

    fn get_command<'a>(&'a self, buffer: &'a mut BufferType) -> (r: Result<&'a [u8], usize>) {
        SetCommand::begin(buffer, "+CPSMS").finish()
    }

    fn parse_response(&self, data: &[u8]) -> (r: Result<AtResponse, AtError>) {
        match Self::parse_state(data) {
            Ok(state) => Ok(AtResponse::PowerSavingMode(state)),
            Err(e) => Err(e),
        }
    }

    fn parse_response_struct(&self, data: &[u8]) -> (r: Result<Self::Response, AtError>) {
        Self::parse_state(data)
    }
}

} // verus!
