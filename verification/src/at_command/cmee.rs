//! How the module reports errors of the mobile equipment: `+CMEE`.

use vstd::prelude::*;
use vstd::string::StringSliceAdditionalSpecFns;
use crate::at_command::{
    acknowledged, acknowledged_untyped, int_reply, parse_int_reply, AtRequest, AtResponse,
    BufferType,
};
use crate::builder::{finished, int_parameter, query_command, query_text, set_text, SetCommand};
use crate::AtError;

verus! {

/// How errors of the mobile equipment are reported.
#[derive(Clone, Copy, Debug, PartialEq, Eq, Structural)]
pub enum ReportMobileEquipmentErrorSetting {
    /// A plain failure reply.
    Disabled,
    /// A failure reply with an error number.
    Numeric,
    /// A failure reply with an error text.
    EnabledVerbose,
}

impl ReportMobileEquipmentErrorSetting {
    /// The value that the module writes as `value`, if there is one.
    pub open spec fn of_code(value: i32) -> Option<ReportMobileEquipmentErrorSetting> {
        if value == 0 {
            Some(ReportMobileEquipmentErrorSetting::Disabled)
        } else if value == 1 {
            Some(ReportMobileEquipmentErrorSetting::Numeric)
        } else if value == 2 {
            Some(ReportMobileEquipmentErrorSetting::EnabledVerbose)
        } else {
            None
        }
    }

    /// The number that the module writes for this value.
    pub open spec fn code_spec(self) -> i32 {
        match self {
            ReportMobileEquipmentErrorSetting::Disabled => 0,
            ReportMobileEquipmentErrorSetting::Numeric => 1,
            ReportMobileEquipmentErrorSetting::EnabledVerbose => 2,
        }
    }

    /// Reads the number `value` of a reply.
    pub fn from_code(value: i32) -> (r: Option<ReportMobileEquipmentErrorSetting>)
        ensures
            r == ReportMobileEquipmentErrorSetting::of_code(value),
            r is Some ==> r.unwrap().code_spec() == value,
    {
        match value {
            0 => Some(ReportMobileEquipmentErrorSetting::Disabled),
            1 => Some(ReportMobileEquipmentErrorSetting::Numeric),
            2 => Some(ReportMobileEquipmentErrorSetting::EnabledVerbose),
            _ => None,
        }
    }

    /// The number that the module writes for this value.
    pub fn code(self) -> (r: i32)
        ensures
            r == self.code_spec(),
            ReportMobileEquipmentErrorSetting::of_code(r) == Some(self),
    {
        match self {
            ReportMobileEquipmentErrorSetting::Disabled => 0,
            ReportMobileEquipmentErrorSetting::Numeric => 1,
            ReportMobileEquipmentErrorSetting::EnabledVerbose => 2,
        }
    }
}

/// The query for the error reporting.
#[derive(Clone, Copy, Debug)]
pub struct ReportMobileEquipmentError;

impl ReportMobileEquipmentError {
    /// The number that a `+CMEE` reply reports.
    pub open spec fn setting_of(data: Seq<u8>) -> Result<i32, AtError> {
        int_reply(data, "\r\n+CMEE: ".spec_bytes(), "\r\n\r\nOK\r\n".spec_bytes())
    }

    fn get_setting(data: &[u8]) -> (r: Result<i32, AtError>)
        ensures
            r == Self::setting_of(data@),
    {
        parse_int_reply(data, "\r\n+CMEE: ", "\r\n\r\nOK\r\n")
    }
}

impl AtRequest for ReportMobileEquipmentError {
    type Response = ReportMobileEquipmentErrorSetting;

    open spec fn encoded(&self, capacity: nat) -> Result<Seq<u8>, usize> {
        finished(query_text("+CMEE".spec_bytes()), capacity)
    }

    open spec fn decoded(&self, data: Seq<u8>, r: Result<Self::Response, AtError>) -> bool {
        r == match Self::setting_of(data) {
            Ok(setting) => match ReportMobileEquipmentErrorSetting::of_code(setting) {
                Some(setting) => Ok(setting),
                None => Err(AtError::AtParseError),
            },
            Err(e) => Err(e),
        }
    }

    open spec fn decoded_untyped(&self, data: Seq<u8>, r: Result<AtResponse, AtError>) -> bool {
        r == match Self::setting_of(data) {
            Ok(setting) => Ok(AtResponse::ReportMobileEquipmentErrorSetting(setting)),
            Err(e) => Err(e),
        }
    }

    fn get_command<'a>(&'a self, buffer: &'a mut BufferType) -> (r: Result<&'a [u8], usize>) {
        query_command(buffer, "+CMEE")
    }

    fn parse_response(&self, data: &[u8]) -> (r: Result<AtResponse, AtError>) {
        match Self::get_setting(data) {
            Ok(setting) => Ok(AtResponse::ReportMobileEquipmentErrorSetting(setting)),
            Err(e) => Err(e),
        }
    }

    fn parse_response_struct(&self, data: &[u8]) -> (r: Result<Self::Response, AtError>) {
        match Self::get_setting(data) {
            Ok(setting) => match ReportMobileEquipmentErrorSetting::from_code(setting) {
                Some(setting) => Ok(setting),
                None => Err(AtError::AtParseError),
            },
            Err(e) => Err(e),
        }
    }
}

/// The command that sets the error reporting.
#[derive(Clone, Copy, Debug)]
pub struct SetReportMobileEquipmentError {
    pub setting: ReportMobileEquipmentErrorSetting,
}

impl AtRequest for SetReportMobileEquipmentError {
    type Response = ();

    open spec fn encoded(&self, capacity: nat) -> Result<Seq<u8>, usize> {
        finished(
            set_text("+CMEE".spec_bytes()) + int_parameter(self.setting.code_spec() as int),
            capacity,
        )
    }

    open spec fn decoded(&self, data: Seq<u8>, r: Result<Self::Response, AtError>) -> bool {
        acknowledged(data, r)
    }

    open spec fn decoded_untyped(&self, data: Seq<u8>, r: Result<AtResponse, AtError>) -> bool {
        acknowledged_untyped(r)
    }

    fn get_command<'a>(&'a self, buffer: &'a mut BufferType) -> (r: Result<&'a [u8], usize>) {
        SetCommand::begin(buffer, "+CMEE").integer(self.setting.code()).finish()
    }

    fn parse_response(&self, _data: &[u8]) -> (r: Result<AtResponse, AtError>) {
        Ok(AtResponse::Okay)
    }

    fn parse_response_struct(&self, data: &[u8]) -> (r: Result<Self::Response, AtError>) {
        super::verify_acknowledged(data)
    }
}

} // verus!
