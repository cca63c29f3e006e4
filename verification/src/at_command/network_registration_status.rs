//! Registration in the packet network: `+CGREG`.

use vstd::prelude::*;
use vstd::string::StringSliceAdditionalSpecFns;
use crate::at_command::{int_pair_reply, parse_int_pair_reply, AtRequest, AtResponse, BufferType};
use crate::builder::{finished, query_command, query_text};
use crate::AtError;

verus! {

/// Whether the module reports changes of registration on its own.
#[derive(Clone, Copy, Debug, PartialEq, Eq, Structural)]
pub enum UnsolicitedResultCodes {
    /// No unsolicited reports.
    Disabled,
    /// Reports of the registration state.
    Enabled,
    /// Reports with location information.
    EnabledVerbose,
}

impl UnsolicitedResultCodes {
    /// The value that the module writes as `value`, if there is one.
    pub open spec fn of_code(value: i32) -> Option<UnsolicitedResultCodes> {
        if value == 0 {
            Some(UnsolicitedResultCodes::Disabled)
        } else if value == 1 {
            Some(UnsolicitedResultCodes::Enabled)
        } else if value == 2 {
            Some(UnsolicitedResultCodes::EnabledVerbose)
        } else {
            None
        }
    }

    /// The number that the module writes for this value.
    pub open spec fn code_spec(self) -> i32 {
        match self {
            UnsolicitedResultCodes::Disabled => 0,
            UnsolicitedResultCodes::Enabled => 1,
            UnsolicitedResultCodes::EnabledVerbose => 2,
        }
    }

    /// Reads the number `value` of a reply.
    pub fn from_code(value: i32) -> (r: Option<UnsolicitedResultCodes>)
        ensures
            r == UnsolicitedResultCodes::of_code(value),
            r is Some ==> r.unwrap().code_spec() == value,
    {
        match value {
            0 => Some(UnsolicitedResultCodes::Disabled),
            1 => Some(UnsolicitedResultCodes::Enabled),
            2 => Some(UnsolicitedResultCodes::EnabledVerbose),
            _ => None,
        }
    }

    /// The number that the module writes for this value.
    pub fn code(self) -> (r: i32)
        ensures
            r == self.code_spec(),
            UnsolicitedResultCodes::of_code(r) == Some(self),
    {
        match self {
            UnsolicitedResultCodes::Disabled => 0,
            UnsolicitedResultCodes::Enabled => 1,
            UnsolicitedResultCodes::EnabledVerbose => 2,
        }
    }
}

/// The registration state of the module.
#[derive(Clone, Copy, Debug, PartialEq, Eq, Structural)]
pub enum NetworkRegistrationStatus {
    /// Not registered and not searching.
    NotRegistered,
    /// Registered in the home network.
    RegisteredHomeNetwork,
    /// Not registered, searching for an operator.
    NotRegisteredSearching,
    /// Registration was denied.
    RegistrationDenied,
    /// The state is not known.
    Unknown,
    /// Registered, roaming.
    RegisteredRoaming,
    /// Registered for SMS only, home network.
    SMSOnlyHome,
    /// Registered for SMS only, roaming.
    SMSOnlyRoaming,
}

impl NetworkRegistrationStatus {
    /// The value that the module writes as `value`, if there is one.
    pub open spec fn of_code(value: i32) -> Option<NetworkRegistrationStatus> {
        if value == 0 {
            Some(NetworkRegistrationStatus::NotRegistered)
        } else if value == 1 {
            Some(NetworkRegistrationStatus::RegisteredHomeNetwork)
        } else if value == 2 {
            Some(NetworkRegistrationStatus::NotRegisteredSearching)
        } else if value == 3 {
            Some(NetworkRegistrationStatus::RegistrationDenied)
        } else if value == 4 {
            Some(NetworkRegistrationStatus::Unknown)
        } else if value == 5 {
            Some(NetworkRegistrationStatus::RegisteredRoaming)
        } else if value == 6 {
            Some(NetworkRegistrationStatus::SMSOnlyHome)
        } else if value == 7 {
            Some(NetworkRegistrationStatus::SMSOnlyRoaming)
        } else {
            None
        }
    }

    /// The number that the module writes for this value.
    pub open spec fn code_spec(self) -> i32 {
        match self {
            NetworkRegistrationStatus::NotRegistered => 0,
            NetworkRegistrationStatus::RegisteredHomeNetwork => 1,
            NetworkRegistrationStatus::NotRegisteredSearching => 2,
            NetworkRegistrationStatus::RegistrationDenied => 3,
            NetworkRegistrationStatus::Unknown => 4,
            NetworkRegistrationStatus::RegisteredRoaming => 5,
            NetworkRegistrationStatus::SMSOnlyHome => 6,
            NetworkRegistrationStatus::SMSOnlyRoaming => 7,
        }
    }

    /// Reads the number `value` of a reply.
    pub fn from_code(value: i32) -> (r: Option<NetworkRegistrationStatus>)
        ensures
            r == NetworkRegistrationStatus::of_code(value),
            r is Some ==> r.unwrap().code_spec() == value,
    {
        match value {
            0 => Some(NetworkRegistrationStatus::NotRegistered),
            1 => Some(NetworkRegistrationStatus::RegisteredHomeNetwork),
            2 => Some(NetworkRegistrationStatus::NotRegisteredSearching),
            3 => Some(NetworkRegistrationStatus::RegistrationDenied),
            4 => Some(NetworkRegistrationStatus::Unknown),
            5 => Some(NetworkRegistrationStatus::RegisteredRoaming),
            6 => Some(NetworkRegistrationStatus::SMSOnlyHome),
            7 => Some(NetworkRegistrationStatus::SMSOnlyRoaming),
            _ => None,
        }
    }

    /// The number that the module writes for this value.
    pub fn code(self) -> (r: i32)
        ensures
            r == self.code_spec(),
            NetworkRegistrationStatus::of_code(r) == Some(self),
    {
        match self {
            NetworkRegistrationStatus::NotRegistered => 0,
            NetworkRegistrationStatus::RegisteredHomeNetwork => 1,
            NetworkRegistrationStatus::NotRegisteredSearching => 2,
            NetworkRegistrationStatus::RegistrationDenied => 3,
            NetworkRegistrationStatus::Unknown => 4,
            NetworkRegistrationStatus::RegisteredRoaming => 5,
            NetworkRegistrationStatus::SMSOnlyHome => 6,
            NetworkRegistrationStatus::SMSOnlyRoaming => 7,
        }
    }
}

/// The pair of values that two numbers of a registration reply stand for.
/// A number outside the known values makes the reply malformed.
pub open spec fn registration_of(numbers: Result<(i32, i32), AtError>) -> Result<
    (UnsolicitedResultCodes, NetworkRegistrationStatus),
    AtError,
> {
    match numbers {
        Ok((n, stat)) => match (
            UnsolicitedResultCodes::of_code(n),
            NetworkRegistrationStatus::of_code(stat),
        ) {
            (Some(unsolicited), Some(status)) => Ok((unsolicited, status)),
            _ => Err(AtError::AtParseError),
        },
        Err(e) => Err(e),
    }
}

/// Reads the two numbers of a registration reply.
pub fn to_registration(numbers: Result<(i32, i32), AtError>) -> (r: Result<
    (UnsolicitedResultCodes, NetworkRegistrationStatus),
    AtError,
>)
    ensures
        r == registration_of(numbers),
{
    match numbers {
        Ok((n, stat)) => match (
            UnsolicitedResultCodes::from_code(n),
            NetworkRegistrationStatus::from_code(stat),
        ) {
            (Some(unsolicited), Some(status)) => Ok((unsolicited, status)),
            _ => Err(AtError::AtParseError),
        },
        Err(e) => Err(e),
    }
}

/// The query for the registration state in the packet network.
#[derive(Clone, Copy, Debug)]
pub struct NetworkRegistration;

/// The response to [`NetworkRegistration`].
#[derive(Clone, Copy, Debug, PartialEq, Eq, Structural)]
pub struct NetworkRegistrationResponse {
    pub unsolicited: UnsolicitedResultCodes,
    pub status: NetworkRegistrationStatus,
}

impl NetworkRegistration {
    /// What a `+CGREG` reply reports.
    pub open spec fn data_of(data: Seq<u8>) -> Result<
        (UnsolicitedResultCodes, NetworkRegistrationStatus),
        AtError,
    > {
        registration_of(
            int_pair_reply(data, "\r\n+CGREG: ".spec_bytes(), "\r\n\r\nOK\r".spec_bytes()),
        )
    }

    fn get_data(data: &[u8]) -> (r: Result<
        (UnsolicitedResultCodes, NetworkRegistrationStatus),
        AtError,
    >)
        ensures
            r == Self::data_of(data@),
    {
        to_registration(parse_int_pair_reply(data, "\r\n+CGREG: ", "\r\n\r\nOK\r"))
    }
}

impl AtRequest for NetworkRegistration {
    type Response = NetworkRegistrationResponse;

    open spec fn encoded(&self, capacity: nat) -> Result<Seq<u8>, usize> {
        finished(query_text("+CGREG".spec_bytes()), capacity)
    }

    open spec fn decoded(&self, data: Seq<u8>, r: Result<Self::Response, AtError>) -> bool {
        r == match Self::data_of(data) {
            Ok((unsolicited, status)) => Ok(NetworkRegistrationResponse { unsolicited, status }),
            Err(e) => Err(e),
        }
    }

    open spec fn decoded_untyped(&self, data: Seq<u8>, r: Result<AtResponse, AtError>) -> bool {
        r == match Self::data_of(data) {
            Ok((unsolicited, status)) => Ok(
                AtResponse::NetworkRegistrationStatus(unsolicited, status),
            ),
            Err(e) => Err(e),
        }
    }

    fn get_command<'a>(&'a self, buffer: &'a mut BufferType) -> (r: Result<&'a [u8], usize>) {
        query_command(buffer, "+CGREG")
    }

    fn parse_response(&self, data: &[u8]) -> (r: Result<AtResponse, AtError>) {
        match Self::get_data(data) {
            Ok((unsolicited, status)) => Ok(
                AtResponse::NetworkRegistrationStatus(unsolicited, status),
            ),
            Err(e) => Err(e),
        }
    }

    fn parse_response_struct(&self, data: &[u8]) -> (r: Result<Self::Response, AtError>) {
        match Self::get_data(data) {
            Ok((unsolicited, status)) => Ok(NetworkRegistrationResponse { unsolicited, status }),
            Err(e) => Err(e),
        }
    }
}

} // verus!
