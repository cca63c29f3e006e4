//! The slow clock: whether and how the module goes to sleep.

use vstd::prelude::*;
use vstd::string::StringSliceAdditionalSpecFns;
use crate::at_command::{
    acknowledged_untyped, ok_verified, verify_ok, AtRequest, AtResponse, BufferType,
};
use crate::builder::{finished, int_parameter, set_text, SetCommand};
use crate::AtError;

verus! {

/// How the module's sleep is controlled.
#[derive(Clone, Copy, Debug, PartialEq, Eq, Structural)]
pub enum CSCLKMode {
    /// The module does not go to sleep.
    Disabled,
    /// The wake line decides: the module sleeps while the line is asserted.
    HardwareControlled,
    /// The module goes to sleep by itself when it is idle.
    SoftwareControlled,
}

impl CSCLKMode {
    /// The value that the module writes as `value`, if there is one.
    pub open spec fn of_code(value: i32) -> Option<CSCLKMode> {
        if value == 0 {
            Some(CSCLKMode::Disabled)
        } else if value == 1 {
            Some(CSCLKMode::HardwareControlled)
        } else if value == 2 {
            Some(CSCLKMode::SoftwareControlled)
        } else {
            None
        }
    }

    /// The number that the module writes for this value.
    pub open spec fn code_spec(self) -> i32 {
        match self {
            CSCLKMode::Disabled => 0,
            CSCLKMode::HardwareControlled => 1,
            CSCLKMode::SoftwareControlled => 2,
        }
    }

    /// Reads the number `value` of a reply.
    pub fn from_code(value: i32) -> (r: Option<CSCLKMode>)
        ensures
            r == CSCLKMode::of_code(value),
            r is Some ==> r.unwrap().code_spec() == value,
    {
        match value {
            0 => Some(CSCLKMode::Disabled),
            1 => Some(CSCLKMode::HardwareControlled),
            2 => Some(CSCLKMode::SoftwareControlled),
            _ => None,
        }
    }

    /// The number that the module writes for this value.
    pub fn code(self) -> (r: i32)
        ensures
            r == self.code_spec(),
            CSCLKMode::of_code(r) == Some(self),
    {
        match self {
            CSCLKMode::Disabled => 0,
            CSCLKMode::HardwareControlled => 1,
            CSCLKMode::SoftwareControlled => 2,
        }
    }
}

impl Default for CSCLKMode {
    fn default() -> (r: CSCLKMode)
        ensures
            r == CSCLKMode::Disabled,
    {
        CSCLKMode::Disabled
    }
}

/// The command that sets the sleep mode.
#[derive(Clone, Copy, Debug, PartialEq, Eq, Structural)]
pub struct SetCSCLKMode {
    pub mode: CSCLKMode,
}

impl AtRequest for SetCSCLKMode {
    type Response = ();

    open spec fn encoded(&self, capacity: nat) -> Result<Seq<u8>, usize> {
        finished(
            set_text("CSCLK".spec_bytes()) + int_parameter(self.mode.code_spec() as int),
            capacity,
        )
    }

    open spec fn decoded(&self, data: Seq<u8>, r: Result<Self::Response, AtError>) -> bool {
        ok_verified(data, r)
    }

    open spec fn decoded_untyped(&self, data: Seq<u8>, r: Result<AtResponse, AtError>) -> bool {
        acknowledged_untyped(r)
    }

    fn get_command<'a>(&'a self, buffer: &'a mut BufferType) -> (r: Result<&'a [u8], usize>) {
        SetCommand::begin(buffer, "CSCLK").integer(self.mode.code()).finish()
    }

    fn parse_response(&self, _data: &[u8]) -> (r: Result<AtResponse, AtError>) {
        Ok(AtResponse::Okay)
    }

    fn parse_response_struct(&self, data: &[u8]) -> (r: Result<Self::Response, AtError>) {
        verify_ok(data)
    }
}

} // verus!
