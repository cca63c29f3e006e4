//! The model of the module, asked for with a fixed command line.

use vstd::prelude::*;
use vstd::string::StringSliceAdditionalSpecFns;
use crate::at_command::{
    acknowledged, acknowledged_untyped, fixed_line, AtRequest, AtResponse, BufferType,
};
use crate::AtError;

verus! {

/// The request for the model name.
#[derive(Clone, Copy, Debug)]
pub struct AtCgmm;

impl AtRequest for AtCgmm {
    type Response = ();

    open spec fn encoded(&self, capacity: nat) -> Result<Seq<u8>, usize> {
        fixed_line("AT+CGMM\r\n".spec_bytes())
    }

    open spec fn decoded(&self, data: Seq<u8>, r: Result<Self::Response, AtError>) -> bool {
        acknowledged(data, r)
    }

    open spec fn decoded_untyped(&self, data: Seq<u8>, r: Result<AtResponse, AtError>) -> bool {
        acknowledged_untyped(r)
    }

    fn get_command<'a>(&'a self, buffer: &'a mut BufferType) -> (r: Result<&'a [u8], usize>) {
        Ok("AT+CGMM\r\n".as_bytes())
    }

    fn parse_response(&self, _data: &[u8]) -> (r: Result<AtResponse, AtError>) {
        Ok(AtResponse::Okay)
    }

    fn parse_response_struct(&self, data: &[u8]) -> (r: Result<Self::Response, AtError>) {
        super::verify_acknowledged(data)
    }
}

} // verus!
