//! Battery charge: `+CBC`.

use vstd::prelude::*;
use vstd::string::StringSliceAdditionalSpecFns;
use crate::at_command::{int_pair_reply, parse_int_pair_reply, AtRequest, AtResponse, BufferType};
use crate::builder::{execute_command, execute_text, finished};
use crate::AtError;

verus! {

/// The charge of the battery.
#[derive(Clone, Copy, Debug, PartialEq, Eq, Structural)]
pub struct BatteryChargeStatus {
    pub capacity_percent: i32,
    pub voltage_millivolt: i32,
}

/// The request for the battery charge.
#[derive(Clone, Copy, Debug)]
pub struct BatteryCharge;

impl BatteryCharge {
    /// What a `+CBC` reply reports.
    pub open spec fn status_of(data: Seq<u8>) -> Result<BatteryChargeStatus, AtError> {
        match int_pair_reply(data, "\r\n+CBC: ".spec_bytes(), "\r\n\r\nOK".spec_bytes()) {
            Ok((capacity_percent, voltage_millivolt)) => Ok(
                BatteryChargeStatus { capacity_percent, voltage_millivolt },
            ),
            Err(e) => Err(e),
        }
    }

    fn get_battery_charge_status(data: &[u8]) -> (r: Result<BatteryChargeStatus, AtError>)
        ensures
            r == Self::status_of(data@),
    {
        match parse_int_pair_reply(data, "\r\n+CBC: ", "\r\n\r\nOK") {
            Ok((capacity_percent, voltage_millivolt)) => Ok(
                BatteryChargeStatus { capacity_percent, voltage_millivolt },
            ),
            Err(e) => Err(e),
        }
    }
}

impl AtRequest for BatteryCharge {
    type Response = BatteryChargeStatus;

    open spec fn encoded(&self, capacity: nat) -> Result<Seq<u8>, usize> {
        finished(execute_text("+CBC".spec_bytes()), capacity)
    }

    open spec fn decoded(&self, data: Seq<u8>, r: Result<Self::Response, AtError>) -> bool {
        r == Self::status_of(data)
    }

    open spec fn decoded_untyped(&self, data: Seq<u8>, r: Result<AtResponse, AtError>) -> bool {
        r == match Self::status_of(data) {
            Ok(status) => Ok(AtResponse::BatteryCharge(status)),
            Err(e) => Err(e),
        }
    }

    fn get_command<'a>(&'a self, buffer: &'a mut BufferType) -> (r: Result<&'a [u8], usize>) {
        execute_command(buffer, "+CBC")
    }

    fn parse_response(&self, data: &[u8]) -> (r: Result<AtResponse, AtError>) {
        match Self::get_battery_charge_status(data) {
            Ok(status) => Ok(AtResponse::BatteryCharge(status)),
            Err(e) => Err(e),
        }
    }

    fn parse_response_struct(&self, data: &[u8]) -> (r: Result<Self::Response, AtError>) {
        Self::get_battery_charge_status(data)
    }
}

} // verus!
