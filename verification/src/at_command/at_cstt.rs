//! The access point of the wireless connection: `+CSTT`.

use vstd::prelude::*;
use vstd::string::StringSliceAdditionalSpecFns;
use crate::at_command::{acknowledged, acknowledged_untyped, AtRequest, AtResponse, BufferType};
use crate::builder::{
    finished, optional_string_parameter, set_text, test_command, test_text, SetCommand,
};
use crate::wire::{fill_padded, zero_padded};
use crate::AtError;

verus! {

/// The number of bytes that each field of the access point is kept in.
pub const CSTT_SIZE_MAX: usize = 32;

/// The command that asks which access point settings the module accepts.
#[derive(Clone, Copy, Debug)]
pub struct GetAPNUserPassword {}

impl AtRequest for GetAPNUserPassword {
    type Response = ();

    open spec fn encoded(&self, capacity: nat) -> Result<Seq<u8>, usize> {
        finished(test_text("+CSTT".spec_bytes()), capacity)
    }

    open spec fn decoded(&self, data: Seq<u8>, r: Result<Self::Response, AtError>) -> bool {
        acknowledged(data, r)
    }

    open spec fn decoded_untyped(&self, data: Seq<u8>, r: Result<AtResponse, AtError>) -> bool {
        acknowledged_untyped(r)
    }

    fn get_command<'a>(&'a self, buffer: &'a mut BufferType) -> (r: Result<&'a [u8], usize>) {
        test_command(buffer, "+CSTT")
    }

    fn parse_response(&self, _data: &[u8]) -> (r: Result<AtResponse, AtError>) {
        Ok(AtResponse::Okay)
    }

    fn parse_response_struct(&self, data: &[u8]) -> (r: Result<Self::Response, AtError>) {
        super::verify_acknowledged(data)
    }
}

/// The command that sets the access point, its user and its password. Each
/// is a field of 32 bytes, padded with zeros, and is sent as it is kept.
#[derive(Clone, Copy, Debug)]
pub struct SetAPNUserPassword {
    pub apn: Option<[u8; CSTT_SIZE_MAX]>,
    pub user: Option<[u8; CSTT_SIZE_MAX]>,
    pub password: Option<[u8; CSTT_SIZE_MAX]>,
}

/// What a field of the access point settings is on the wire.
pub open spec fn field_parameter(field: Option<[u8; CSTT_SIZE_MAX]>) -> Seq<u8> {
    optional_string_parameter(
        match field {
            Some(bytes) => Some(bytes@),
            None => None,
        },
    )
}

fn field_bytes<'a>(field: &'a Option<[u8; CSTT_SIZE_MAX]>) -> (r: Option<&'a [u8]>)
    ensures
        match (*field, r) {
            (Some(bytes), Some(slice)) => slice@ == bytes@,
            (None, None) => true,
            _ => false,
        },
{
    match field {
        Some(bytes) => Some(bytes.as_slice()),
        None => None,
    }
}

impl SetAPNUserPassword {
    /// The command with nothing set.
    pub fn new() -> (r: Self)
        ensures
            r.apn is None,
            r.user is None,
            r.password is None,
    {
        Self { apn: None, user: None, password: None }
    }

    /// This command with the access point name `apn`, which has at most 32
    /// bytes.
    pub fn with_apn(self, apn: &str) -> (r: Self)
        requires
            apn.spec_bytes().len() <= CSTT_SIZE_MAX,
        ensures
            r.apn is Some,
            r.apn.unwrap()@ == zero_padded(apn.spec_bytes(), CSTT_SIZE_MAX as nat),
            r.user == self.user,
            r.password == self.password,
    {
        let mut apn_b: [u8; CSTT_SIZE_MAX] = [0; CSTT_SIZE_MAX];
        fill_padded(&mut apn_b, apn.as_bytes());
        Self { apn: Some(apn_b), user: self.user, password: self.password }
    }
}

impl AtRequest for SetAPNUserPassword {
    type Response = ();

    open spec fn encoded(&self, capacity: nat) -> Result<Seq<u8>, usize> {
        finished(
            set_text("CSTT".spec_bytes()) + field_parameter(self.apn) + field_parameter(self.user)
                + field_parameter(self.password),
            capacity,
        )
    }

    open spec fn decoded(&self, data: Seq<u8>, r: Result<Self::Response, AtError>) -> bool {
        acknowledged(data, r)
    }

    open spec fn decoded_untyped(&self, data: Seq<u8>, r: Result<AtResponse, AtError>) -> bool {
        acknowledged_untyped(r)
    }

    fn get_command<'a>(&'a self, buffer: &'a mut BufferType) -> (r: Result<&'a [u8], usize>) {
        SetCommand::begin(buffer, "CSTT").optional_string(field_bytes(&self.apn)).optional_string(
            field_bytes(&self.user),
        ).optional_string(field_bytes(&self.password)).finish()
    }

    fn parse_response(&self, _data: &[u8]) -> (r: Result<AtResponse, AtError>) {
        Ok(AtResponse::Okay)
    }

    fn parse_response_struct(&self, data: &[u8]) -> (r: Result<Self::Response, AtError>) {
        super::verify_acknowledged(data)
    }
}

} // verus!
