//! Flow control on the serial line: `+IFC`.

use vstd::prelude::*;
use vstd::string::StringSliceAdditionalSpecFns;
use crate::at_command::{acknowledged, acknowledged_untyped, AtRequest, AtResponse, BufferType};
use crate::builder::{finished, int_parameter, query_command, query_text, set_text, SetCommand};
use crate::wire::Cursor;
use crate::AtError;

verus! {

/// A method of flow control.
#[derive(Clone, Copy, Debug, PartialEq, Eq, Structural)]
pub enum ControlFlowStatus {
    /// No flow control.
    No,
    /// XON and XOFF.
    Software,
    /// RTS and CTS.
    Hardware,
}

impl ControlFlowStatus {
    /// The value that the module writes as `value`, if there is one.
    pub open spec fn of_code(value: i32) -> Option<ControlFlowStatus> {
        if value == 0 {
            Some(ControlFlowStatus::No)
        } else if value == 1 {
            Some(ControlFlowStatus::Software)
        } else if value == 2 {
            Some(ControlFlowStatus::Hardware)
        } else {
            None
        }
    }

    /// The number that the module writes for this value.
    pub open spec fn code_spec(self) -> i32 {
        match self {
            ControlFlowStatus::No => 0,
            ControlFlowStatus::Software => 1,
            ControlFlowStatus::Hardware => 2,
        }
    }

    /// Reads the number `value` of a reply.
    pub fn from_code(value: i32) -> (r: Option<ControlFlowStatus>)
        ensures
            r == ControlFlowStatus::of_code(value),
            r is Some ==> r.unwrap().code_spec() == value,
    {
        match value {
            0 => Some(ControlFlowStatus::No),
            1 => Some(ControlFlowStatus::Software),
            2 => Some(ControlFlowStatus::Hardware),
            _ => None,
        }
    }

    /// The number that the module writes for this value.
    pub fn code(self) -> (r: i32)
        ensures
            r == self.code_spec(),
            ControlFlowStatus::of_code(r) == Some(self),
    {
        match self {
            ControlFlowStatus::No => 0,
            ControlFlowStatus::Software => 1,
            ControlFlowStatus::Hardware => 2,
        }
    }
}

impl ControlFlowStatus {
    /// The number that the module writes for this method.
    pub fn to_int(&self) -> (r: i32)
        ensures
            r == self.code_spec(),
    {
        self.code()
    }
}

/// The command that sets the flow control of both directions.
#[derive(Clone, Copy, Debug)]
pub struct SetFlowControl {
    /// The method by which the terminal throttles the module.
    pub ta_to_te: ControlFlowStatus,
    /// The method by which the module throttles the terminal.
    pub te_to_ta: ControlFlowStatus,
}

impl AtRequest for SetFlowControl {
    type Response = ();

    open spec fn encoded(&self, capacity: nat) -> Result<Seq<u8>, usize> {
        finished(
            set_text("+IFC".spec_bytes()) + int_parameter(self.ta_to_te.code_spec() as int)
                + int_parameter(self.te_to_ta.code_spec() as int),
            capacity,
        )
    }

    open spec fn decoded(&self, data: Seq<u8>, r: Result<Self::Response, AtError>) -> bool {
        acknowledged(data, r)
    }

    open spec fn decoded_untyped(&self, data: Seq<u8>, r: Result<AtResponse, AtError>) -> bool {
        acknowledged_untyped(r)
    }

    fn get_command<'a>(&'a self, buffer: &'a mut BufferType) -> (r: Result<&'a [u8], usize>) {
        SetCommand::begin(buffer, "+IFC").integer(self.ta_to_te.to_int()).integer(
            self.te_to_ta.to_int(),
        ).finish()
    }

    fn parse_response(&self, _data: &[u8]) -> (r: Result<AtResponse, AtError>) {
        Ok(AtResponse::Okay)
    }

    fn parse_response_struct(&self, data: &[u8]) -> (r: Result<Self::Response, AtError>) {
        super::verify_acknowledged(data)
    }
}

/// The query for the flow control.
#[derive(Clone, Copy, Debug)]
pub struct GetFlowControl;

/// The response to [`GetFlowControl`].
#[derive(Clone, Copy, Debug, PartialEq, Eq, Structural)]
pub struct GetFlowControlResponse {
    /// The method that the terminal uses when it receives from the module.
    pub dce_by_dte: ControlFlowStatus,
    /// The method that the module uses when it receives from the terminal.
    pub dte_by_dce: ControlFlowStatus,
}

impl GetFlowControl {
    /// What a reply reports: after the echoed query, which may be missing,
    /// `+IFC: `, two numbers that name methods, and the rest of the line.
    pub open spec fn data_of(data: Seq<u8>) -> Result<
        (ControlFlowStatus, ControlFlowStatus),
        AtError,
    > {
        let first = Cursor::start().after_optional_identifier(
            data,
            "AT+IFC?\r".spec_bytes(),
        ).after_identifier(data, "\r\n+IFC: ".spec_bytes()).after_integer(data);
        let second = first.0.after_integer(data);
        if second.0.after_text(data).0.valid {
            match (ControlFlowStatus::of_code(first.1), ControlFlowStatus::of_code(second.1)) {
                (Some(dce_by_dte), Some(dte_by_dce)) => Ok((dce_by_dte, dte_by_dce)),
                _ => Err(AtError::AtParseError),
            }
        } else {
            Err(AtError::AtParseError)
        }
    }

    fn parse_data(data: &[u8]) -> (r: Result<(ControlFlowStatus, ControlFlowStatus), AtError>)
        ensures
            r == Self::data_of(data@),
    {
        let cursor = Cursor::new().optional_identifier(data, "AT+IFC?\r".as_bytes()).identifier(
            data,
            "\r\n+IFC: ".as_bytes(),
        );
        let (cursor, first) = cursor.integer(data);
        let (cursor, second) = cursor.integer(data);
        let (cursor, _) = cursor.text(data);
        if !cursor.valid {
            return Err(AtError::AtParseError);
        }
        match (ControlFlowStatus::from_code(first), ControlFlowStatus::from_code(second)) {
            (Some(dce_by_dte), Some(dte_by_dce)) => Ok((dce_by_dte, dte_by_dce)),
            _ => Err(AtError::AtParseError),
        }
    }
}

impl AtRequest for GetFlowControl {
    type Response = GetFlowControlResponse;

    open spec fn encoded(&self, capacity: nat) -> Result<Seq<u8>, usize> {
        finished(query_text("+IFC".spec_bytes()), capacity)
    }

    open spec fn decoded(&self, data: Seq<u8>, r: Result<Self::Response, AtError>) -> bool {
        r == match Self::data_of(data) {
            Ok((dce_by_dte, dte_by_dce)) => Ok(GetFlowControlResponse { dce_by_dte, dte_by_dce }),
            Err(e) => Err(e),
        }
    }

    open spec fn decoded_untyped(&self, data: Seq<u8>, r: Result<AtResponse, AtError>) -> bool {
        r == match Self::data_of(data) {
            Ok((dce_by_dte, dte_by_dce)) => Ok(AtResponse::ControlFlow(dce_by_dte, dte_by_dce)),
            Err(e) => Err(e),
        }
    }

    fn get_command<'a>(&'a self, buffer: &'a mut BufferType) -> (r: Result<&'a [u8], usize>) {
        query_command(buffer, "+IFC")
    }

    fn parse_response(&self, data: &[u8]) -> (r: Result<AtResponse, AtError>) {
        match Self::parse_data(data) {
            Ok((dce_by_dte, dte_by_dce)) => Ok(AtResponse::ControlFlow(dce_by_dte, dte_by_dce)),
            Err(e) => Err(e),
        }
    }

    fn parse_response_struct(&self, data: &[u8]) -> (r: Result<Self::Response, AtError>) {
        match Self::parse_data(data) {
            Ok((dce_by_dte, dte_by_dce)) => Ok(GetFlowControlResponse { dce_by_dte, dte_by_dce }),
            Err(e) => Err(e),
        }
    }
}

} // verus!
