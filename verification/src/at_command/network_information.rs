//! The operator of the network: `+COPS`.

use vstd::prelude::*;
use vstd::string::StringSliceAdditionalSpecFns;
use crate::at_command::{fails_with, AtRequest, AtResponse, BufferType};
use crate::bounded::{bound_optional, optional_admits, optional_view, BoundedText};
use crate::builder::{finished, query_command, query_text};
use crate::wire::{fill_padded, zero_padded, Cursor};
use crate::AtError;

verus! {

/// The name of an operator in a field of ten bytes: the bytes of the name
/// that fit, then zeros.
#[derive(Clone, Copy, Debug, PartialEq, Eq)]
pub struct NetworkOperator(pub [u8; 10]);

impl NetworkOperator {
    /// Keeps the first ten bytes of `value`.
    pub fn from_text(value: &str) -> (r: NetworkOperator)
        ensures
            r.0@ == zero_padded(value.spec_bytes(), 10),
    {
        let mut data: [u8; 10] = [0; 10];
        fill_padded(&mut data, value.as_bytes());
        NetworkOperator(data)
    }
}

/// The format in which an operator is named.
#[derive(Clone, Copy, Debug, PartialEq, Eq, Structural)]
pub enum NetworkFormat {
    /// Reported as 0.
    LongAlphanumeric,
    /// Reported as 1.
    ShortAlphanumeric,
    /// Reported as 2.
    Numeric,
    /// The reply names no format.
    Unknown,
}

impl NetworkFormat {
    /// The format that the module writes as `value`, if there is one.
    pub open spec fn of_code(value: i32) -> Option<NetworkFormat> {
        if value == 0 {
            Some(NetworkFormat::LongAlphanumeric)
        } else if value == 1 {
            Some(NetworkFormat::ShortAlphanumeric)
        } else if value == 2 {
            Some(NetworkFormat::Numeric)
        } else {
            None
        }
    }

    /// The format of a reply whose format field is `field`: `Unknown` where
    /// the field is empty.
    pub open spec fn of_field(field: Option<i32>) -> Option<NetworkFormat> {
        match field {
            Some(value) => NetworkFormat::of_code(value),
            None => Some(NetworkFormat::Unknown),
        }
    }

    /// Reads the number `value` of a reply.
    pub fn from_code(value: i32) -> (r: Option<NetworkFormat>)
        ensures
            r == NetworkFormat::of_code(value),
    {
        match value {
            0 => Some(NetworkFormat::LongAlphanumeric),
            1 => Some(NetworkFormat::ShortAlphanumeric),
            2 => Some(NetworkFormat::Numeric),
            _ => None,
        }
    }

    /// Reads the format field of a reply.
    pub fn from_field(field: Option<i32>) -> (r: Option<NetworkFormat>)
        ensures
            r == NetworkFormat::of_field(field),
    {
        match field {
            Some(value) => NetworkFormat::from_code(value),
            None => Some(NetworkFormat::Unknown),
        }
    }
}

/// How the operator is selected.
#[derive(Clone, Copy, Debug, PartialEq, Eq, Structural)]
pub enum NetworkMode {
    /// The module selects the operator.
    Automatic,
    /// The operator is set by command.
    Manual,
}

impl NetworkMode {
    /// The value that the module writes as `value`, if there is one.
    pub open spec fn of_code(value: i32) -> Option<NetworkMode> {
        if value == 0 {
            Some(NetworkMode::Automatic)
        } else if value == 1 {
            Some(NetworkMode::Manual)
        } else {
            None
        }
    }

    /// The number that the module writes for this value.
    pub open spec fn code_spec(self) -> i32 {
        match self {
            NetworkMode::Automatic => 0,
            NetworkMode::Manual => 1,
        }
    }

    /// Reads the number `value` of a reply.
    pub fn from_code(value: i32) -> (r: Option<NetworkMode>)
        ensures
            r == NetworkMode::of_code(value),
            r is Some ==> r.unwrap().code_spec() == value,
    {
        match value {
            0 => Some(NetworkMode::Automatic),
            1 => Some(NetworkMode::Manual),
            _ => None,
        }
    }

    /// The number that the module writes for this value.
    pub fn code(self) -> (r: i32)
        ensures
            r == self.code_spec(),
            NetworkMode::of_code(r) == Some(self),
    {
        match self {
            NetworkMode::Automatic => 0,
            NetworkMode::Manual => 1,
        }
    }
}

/// The query for the operator.
#[derive(Clone, Copy, Debug)]
pub struct NetworkInformation;

/// The number of bytes that an operator's name is written with at most.
pub const OPERATOR_MAX_SIZE: usize = 16;

/// The name of an operator.
pub type OperatorName = BoundedText<OPERATOR_MAX_SIZE>;

/// The response to [`NetworkInformation`].
#[derive(Debug)]
pub struct NetworkInformationState {
    pub mode: NetworkMode,
    pub format: NetworkFormat,
    pub operator: Option<OperatorName>,
}

/// The fields of a `+COPS` reply.
pub struct OperatorFields {
    /// Whether the reply is well formed.
    pub valid: bool,
    /// The selection mode, as a number.
    pub mode: i32,
    /// The format of the name, as a number, where the reply has one.
    pub format: Option<i32>,
    /// The operator's name, where the reply has one.
    pub operator: Option<Seq<u8>>,
    /// The access technology, as a number, where the reply has one.
    pub access_technology: Option<i32>,
}

impl NetworkInformation {
    /// Reads a reply: `+COPS: `, the mode, then a format, a quoted name and
    /// an access technology, each of which may be missing, and the
    /// acknowledgement.
    pub open spec fn fields_of(data: Seq<u8>) -> OperatorFields {
        let mode = Cursor::start().after_identifier(data, "\r\n+COPS: ".spec_bytes()).after_integer(
            data,
        );
        let format = mode.0.after_optional_integer(data);
        let operator = format.0.after_optional_quoted(data);
        let access_technology = operator.0.after_optional_integer(data);
        OperatorFields {
            valid: access_technology.0.after_identifier(data, "\r\n\r\nOK".spec_bytes()).valid,
            mode: mode.1,
            format: format.1,
            operator: operator.1,
            access_technology: access_technology.1,
        }
    }

    /// The mode and the format of a well-formed reply, where its numbers
    /// name any.
    pub open spec fn selection_of(fields: OperatorFields) -> Option<(NetworkMode, NetworkFormat)> {
        match (NetworkMode::of_code(fields.mode), NetworkFormat::of_field(fields.format)) {
            (Some(mode), Some(format)) => Some((mode, format)),
            _ => None,
        }
    }

    fn get_network_info<'a>(data: &'a [u8]) -> (r: Result<
        (NetworkMode, NetworkFormat, Option<&'a str>),
        AtError,
    >)
        ensures
            match r {
                Ok((mode, format, operator)) => {
                    &&& Self::fields_of(data@).valid
                    &&& Self::selection_of(Self::fields_of(data@)) == Some((mode, format))
                    &&& operator is Some == Self::fields_of(data@).operator is Some
                    &&& operator is Some ==> operator.unwrap().spec_bytes() == Self::fields_of(
                        data@,
                    ).operator.unwrap()
                },
                Err(e) => e == AtError::AtParseError && (!Self::fields_of(data@).valid
                    || Self::selection_of(Self::fields_of(data@)) is None),
            },
    {
        let (cursor, mode) = Cursor::new().identifier(data, "\r\n+COPS: ".as_bytes()).integer(data);
        let (cursor, format) = cursor.optional_integer(data);
        let (cursor, operator) = cursor.optional_quoted(data);
        let (cursor, _access_technology) = cursor.optional_integer(data);
        if !cursor.identifier(data, "\r\n\r\nOK".as_bytes()).valid {
            return Err(AtError::AtParseError);
        }
        match (NetworkMode::from_code(mode), NetworkFormat::from_field(format)) {
            (Some(mode), Some(format)) => Ok((mode, format, operator)),
            _ => Err(AtError::AtParseError),
        }
    }
}

impl AtRequest for NetworkInformation {
    type Response = NetworkInformationState;

    open spec fn encoded(&self, capacity: nat) -> Result<Seq<u8>, usize> {
        finished(query_text("+COPS".spec_bytes()), capacity)
    }

    open spec fn decoded(&self, data: Seq<u8>, r: Result<Self::Response, AtError>) -> bool {
        {
            let fields = Self::fields_of(data);
            if !fields.valid || Self::selection_of(fields) is None {
                fails_with(r, AtError::AtParseError)
            } else if !optional_admits::<OPERATOR_MAX_SIZE>(fields.operator) {
                fails_with(r, AtError::CapacityError)
            } else {
                &&& r is Ok
                &&& Some((r.unwrap().mode, r.unwrap().format)) == Self::selection_of(fields)
                &&& optional_view(r.unwrap().operator) == fields.operator
            }
        }
    }

    open spec fn decoded_untyped(&self, data: Seq<u8>, r: Result<AtResponse, AtError>) -> bool {
        {
            let fields = Self::fields_of(data);
            if !fields.valid || Self::selection_of(fields) is None {
                fails_with(r, AtError::AtParseError)
            } else {
                match r {
                    Ok(AtResponse::NetworkInformationState(mode, format, operator)) => {
                        &&& Some((mode, format)) == Self::selection_of(fields)
                        &&& operator is Some == fields.operator is Some
                        &&& operator is Some ==> operator.unwrap().0@ == zero_padded(
                            fields.operator.unwrap(),
                            10,
                        )
                    },
                    _ => false,
                }
            }
        }
    }

    fn get_command<'a>(&'a self, buffer: &'a mut BufferType) -> (r: Result<&'a [u8], usize>) {
        query_command(buffer, "+COPS")
    }

    fn parse_response(&self, data: &[u8]) -> (r: Result<AtResponse, AtError>) {
        match Self::get_network_info(data) {
            Ok((mode, format, operator)) => {
                let operator = match operator {
                    Some(name) => Some(NetworkOperator::from_text(name)),
                    None => None,
                };
                Ok(AtResponse::NetworkInformationState(mode, format, operator))
            },
            Err(e) => Err(e),
        }
    }

    fn parse_response_struct(&self, data: &[u8]) -> (r: Result<Self::Response, AtError>) {
        match Self::get_network_info(data) {
            Ok((mode, format, operator)) => match bound_optional(operator) {
                Ok(operator) => Ok(NetworkInformationState { mode, format, operator }),
                Err(e) => Err(e),
            },
            Err(e) => Err(e),
        }
    }
}

} // verus!
