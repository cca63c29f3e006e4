//! The model of the module: `+CGMM`.

use vstd::prelude::*;
use vstd::string::StringSliceAdditionalSpecFns;
use crate::at_command::{parse_text_reply, text_reply, AtRequest, AtResponse, BufferType};
use crate::builder::{execute_command, execute_text, finished};
use crate::wire::{fill_padded, zero_padded};
use crate::AtError;

verus! {

/// The request for the model name.
#[derive(Clone, Copy, Debug)]
pub struct ModelIdentification {}

/// The number of bytes that a model name is kept in.
pub const MODEL_IDENTIFIER_SIZE: usize = 8;

/// The response to [`ModelIdentification`]: the name, padded with zeros.
#[derive(Clone, Copy, Debug, PartialEq, Eq)]
pub struct ModelIdentificationResponse {
    pub model: [u8; MODEL_IDENTIFIER_SIZE],
}

impl ModelIdentification {
    /// The model name of a reply: the line of text between the leading
    /// CR LF and the acknowledgement.
    pub open spec fn name_of(data: Seq<u8>) -> Result<Seq<u8>, AtError> {
        text_reply(data, "\r\n".spec_bytes(), "\r\n\r\nOK".spec_bytes())
    }

    /// Whether `r` is the model of the reply `data`: the name in a field
    /// of eight bytes, or a capacity error where the name is longer.
    pub open spec fn is_model_of(
        data: Seq<u8>,
        r: Result<[u8; MODEL_IDENTIFIER_SIZE], AtError>,
    ) -> bool {
        match Self::name_of(data) {
            Ok(name) => if name.len() <= MODEL_IDENTIFIER_SIZE {
                r is Ok && r.unwrap()@ == zero_padded(name, MODEL_IDENTIFIER_SIZE as nat)
            } else {
                r == Err::<[u8; MODEL_IDENTIFIER_SIZE], AtError>(AtError::CapacityError)
            },
            Err(e) => r == Err::<[u8; MODEL_IDENTIFIER_SIZE], AtError>(e),
        }
    }

    fn get_model(data: &[u8]) -> (r: Result<[u8; MODEL_IDENTIFIER_SIZE], AtError>)
        ensures
            Self::is_model_of(data@, r),
    {
        match parse_text_reply(data, "\r\n", "\r\n\r\nOK") {
            Ok(name) => {
                let name = name.as_bytes();
                if name.len() > MODEL_IDENTIFIER_SIZE {
                    return Err(AtError::CapacityError);
                }
                let mut id: [u8; MODEL_IDENTIFIER_SIZE] = [0; MODEL_IDENTIFIER_SIZE];
                fill_padded(&mut id, name);
                Ok(id)
            },
            Err(e) => Err(e),
        }
    }
}

impl AtRequest for ModelIdentification {
    type Response = ModelIdentificationResponse;

    open spec fn encoded(&self, capacity: nat) -> Result<Seq<u8>, usize> {
        finished(execute_text("+CGMM".spec_bytes()), capacity)
    }

    open spec fn decoded(&self, data: Seq<u8>, r: Result<Self::Response, AtError>) -> bool {
        match r {
            Ok(response) => Self::is_model_of(data, Ok(response.model)),
            Err(e) => Self::is_model_of(data, Err(e)),
        }
    }

    open spec fn decoded_untyped(&self, data: Seq<u8>, r: Result<AtResponse, AtError>) -> bool {
        match r {
            Ok(AtResponse::ModelIdentifier(model)) => Self::is_model_of(data, Ok(model)),
            Ok(_) => false,
            Err(e) => Self::is_model_of(data, Err(e)),
        }
    }

    fn get_command<'a>(&'a self, buffer: &'a mut BufferType) -> (r: Result<&'a [u8], usize>) {
        execute_command(buffer, "+CGMM")
    }

    fn parse_response(&self, data: &[u8]) -> (r: Result<AtResponse, AtError>) {
        match Self::get_model(data) {
            Ok(model) => Ok(AtResponse::ModelIdentifier(model)),
            Err(e) => Err(e),
        }
    }

    fn parse_response_struct(&self, data: &[u8]) -> (r: Result<Self::Response, AtError>) {
        match Self::get_model(data) {
            Ok(model) => Ok(ModelIdentificationResponse { model }),
            Err(e) => Err(e),
        }
    }
}

} // verus!
