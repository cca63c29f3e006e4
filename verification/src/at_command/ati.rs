//! Product information.

use vstd::prelude::*;
use vstd::string::StringSliceAdditionalSpecFns;
use crate::at_command::{acknowledged_untyped, AtRequest, AtResponse, BufferType};
use crate::builder::{finished, query_command, query_text};
use crate::AtError;

verus! {

/// The query for the product information.
#[derive(Clone, Copy, Debug)]
pub struct AtI;

/// The response to [`AtI`]. Nothing of the reply is kept.
#[derive(Clone, Copy, Debug, PartialEq, Eq, Structural)]
pub struct ProductInformation {}

impl AtRequest for AtI {
    type Response = ProductInformation;

    open spec fn encoded(&self, capacity: nat) -> Result<Seq<u8>, usize> {
        finished(query_text("I".spec_bytes()), capacity)
    }

    open spec fn decoded(&self, data: Seq<u8>, r: Result<Self::Response, AtError>) -> bool {
        super::acknowledged_as(data, r, ProductInformation {})
    }

    open spec fn decoded_untyped(&self, data: Seq<u8>, r: Result<AtResponse, AtError>) -> bool {
        acknowledged_untyped(r)
    }

    fn get_command<'a>(&'a self, buffer: &'a mut BufferType) -> (r: Result<&'a [u8], usize>) {
        query_command(buffer, "I")
    }

    fn parse_response(&self, _data: &[u8]) -> (r: Result<AtResponse, AtError>) {
        Ok(AtResponse::Okay)
    }

    fn parse_response_struct(&self, data: &[u8]) -> (r: Result<Self::Response, AtError>) {
        match super::verify_acknowledged(data) {
            Ok(_) => Ok(ProductInformation {}),
            Err(e) => Err(e),
        }
    }
}

} // verus!
