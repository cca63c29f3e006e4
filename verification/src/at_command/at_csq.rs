//! Signal quality: `+CSQ`.

use vstd::prelude::*;
use vstd::string::StringSliceAdditionalSpecFns;
use crate::at_command::{int_pair_reply, parse_int_pair_reply, AtRequest, AtResponse, BufferType};
use crate::builder::{execute_command, execute_text, finished};
use crate::AtError;

verus! {

/// The request for the signal quality.
#[derive(Clone, Copy, Debug)]
pub struct SignalQualityReport;

impl SignalQualityReport {
    /// The received signal strength and the channel bit error rate that a
    /// `+CSQ` reply reports, in that order.
    pub open spec fn quality_of(data: Seq<u8>) -> Result<(i32, i32), AtError> {
        int_pair_reply(data, "\r\n+CSQ: ".spec_bytes(), "\r\n\r\nOK\r\n".spec_bytes())
    }
}

impl AtRequest for SignalQualityReport {
    type Response = (i32, i32);

    open spec fn encoded(&self, capacity: nat) -> Result<Seq<u8>, usize> {
        finished(execute_text("+CSQ".spec_bytes()), capacity)
    }

    open spec fn decoded(&self, data: Seq<u8>, r: Result<Self::Response, AtError>) -> bool {
        r == Self::quality_of(data)
    }

    open spec fn decoded_untyped(&self, data: Seq<u8>, r: Result<AtResponse, AtError>) -> bool {
        r == match Self::quality_of(data) {
            Ok((rx_signal_strength, rx_quality)) => Ok(
                AtResponse::SignalQuality(rx_signal_strength, rx_quality),
            ),
            Err(e) => Err(e),
        }
    }

    fn get_command<'a>(&'a self, buffer: &'a mut BufferType) -> (r: Result<&'a [u8], usize>) {
        execute_command(buffer, "+CSQ")
    }

    fn parse_response(&self, data: &[u8]) -> (r: Result<AtResponse, AtError>) {
        match parse_int_pair_reply(data, "\r\n+CSQ: ", "\r\n\r\nOK\r\n") {
            Ok((rx_signal_strength, rx_quality)) => Ok(
                AtResponse::SignalQuality(rx_signal_strength, rx_quality),
            ),
            Err(e) => Err(e),
        }
    }

    fn parse_response_struct(&self, data: &[u8]) -> (r: Result<Self::Response, AtError>) {
        parse_int_pair_reply(data, "\r\n+CSQ: ", "\r\n\r\nOK\r\n")
    }
}

} // verus!
