//! The packet data context: `+CGACT`.

use vstd::prelude::*;
use vstd::string::StringSliceAdditionalSpecFns;
use crate::at_command::{int_pair_reply, parse_int_pair_reply, AtRequest, AtResponse, BufferType};
use crate::builder::{finished, query_command, query_text};
use crate::wire::{has_prefix_at, starts_with_at};
use crate::AtError;

verus! {

/// Whether a packet data context is active.
#[derive(Clone, Copy, Debug, PartialEq, Eq, Structural)]
pub enum PDPState {
    /// The context is not active.
    Deactivated,
    /// The context is active.
    Activated,
}

impl PDPState {
    /// The value that the module writes as `value`, if there is one.
    pub open spec fn of_code(value: i32) -> Option<PDPState> {
        if value == 0 {
            Some(PDPState::Deactivated)
        } else if value == 1 {
            Some(PDPState::Activated)
        } else {
            None
        }
    }

    /// The number that the module writes for this value.
    pub open spec fn code_spec(self) -> i32 {
        match self {
            PDPState::Deactivated => 0,
            PDPState::Activated => 1,
        }
    }

    /// Reads the number `value` of a reply.
    pub fn from_code(value: i32) -> (r: Option<PDPState>)
        ensures
            r == PDPState::of_code(value),
            r is Some ==> r.unwrap().code_spec() == value,
    {
        match value {
            0 => Some(PDPState::Deactivated),
            1 => Some(PDPState::Activated),
            _ => None,
        }
    }

    /// The number that the module writes for this value.
    pub fn code(self) -> (r: i32)
        ensures
            r == self.code_spec(),
            PDPState::of_code(r) == Some(self),
    {
        match self {
            PDPState::Deactivated => 0,
            PDPState::Activated => 1,
        }
    }
}

/// The query for the state of the packet data context.
#[derive(Clone, Copy, Debug)]
pub struct PDPContext;

impl PDPContext {
    /// What a reply reports: nothing where it is a bare acknowledgement,
    /// which the module sends while it has no context yet; else the state
    /// and the number of the context.
    pub open spec fn context_of(data: Seq<u8>) -> Result<Option<(PDPState, i32)>, AtError> {
        if has_prefix_at(data, 0, "\r\nOK\r".spec_bytes()) {
            Ok(None)
        } else {
            match int_pair_reply(data, "\r\n+CGACT: ".spec_bytes(), "\r\n\r\nOK".spec_bytes()) {
                Ok((state, context)) => match PDPState::of_code(state) {
                    Some(state) => Ok(Some((state, context))),
                    None => Err(AtError::AtParseError),
                },
                Err(e) => Err(e),
            }
        }
    }

    fn get_context(data: &[u8]) -> (r: Result<Option<(PDPState, i32)>, AtError>)
        ensures
            r == Self::context_of(data@),
    {
        if starts_with_at(data, 0, "\r\nOK\r".as_bytes()) {
            return Ok(None);
        }
        match parse_int_pair_reply(data, "\r\n+CGACT: ", "\r\n\r\nOK") {
            Ok((state, context)) => match PDPState::from_code(state) {
                Some(state) => Ok(Some((state, context))),
                None => Err(AtError::AtParseError),
            },
            Err(e) => Err(e),
        }
    }
}

impl AtRequest for PDPContext {
    type Response = Option<(PDPState, i32)>;

    open spec fn encoded(&self, capacity: nat) -> Result<Seq<u8>, usize> {
        finished(query_text("+CGACT".spec_bytes()), capacity)
    }

    open spec fn decoded(&self, data: Seq<u8>, r: Result<Self::Response, AtError>) -> bool {
        r == Self::context_of(data)
    }

    open spec fn decoded_untyped(&self, data: Seq<u8>, r: Result<AtResponse, AtError>) -> bool {
        r == match Self::context_of(data) {
            Ok(context) => Ok(AtResponse::PDPContext(context)),
            Err(e) => Err(e),
        }
    }

    fn get_command<'a>(&'a self, buffer: &'a mut BufferType) -> (r: Result<&'a [u8], usize>) {
        query_command(buffer, "+CGACT")
    }

    fn parse_response(&self, data: &[u8]) -> (r: Result<AtResponse, AtError>) {
        match Self::get_context(data) {
            Ok(context) => Ok(AtResponse::PDPContext(context)),
            Err(e) => Err(e),
        }
    }

    fn parse_response_struct(&self, data: &[u8]) -> (r: Result<Self::Response, AtError>) {
        Self::get_context(data)
    }
}

} // verus!
