//! Network time: starting and stopping the query of an NTP server.

use vstd::prelude::*;
use vstd::string::StringSliceAdditionalSpecFns;
use crate::at_command::{acknowledged, acknowledged_untyped, AtRequest, AtResponse, BufferType};
use crate::builder::{
    finished, query_command, query_text, set_text, string_parameter, SetCommand,
};
use crate::AtError;

verus! {

/// The command that starts the query of an NTP server.
#[derive(Clone, Copy, Debug)]
pub struct StartQueryNTP<'a> {
    /// The server's address.
    pub url: &'a str,
    /// The time zone, where one is given.
    pub tzinfo: Option<&'a str>,
}

impl AtRequest for StartQueryNTP<'_> {
    type Response = ();

    open spec fn encoded(&self, capacity: nat) -> Result<Seq<u8>, usize> {
        finished(
            set_text("+CSNTPSTART".spec_bytes()) + string_parameter(self.url.spec_bytes())
                + match self.tzinfo {
                    Some(tzinfo) => string_parameter(tzinfo.spec_bytes()),
                    None => Seq::empty(),
                },
            capacity,
        )
    }

    open spec fn decoded(&self, data: Seq<u8>, r: Result<Self::Response, AtError>) -> bool {
        acknowledged(data, r)
    }

    open spec fn decoded_untyped(&self, data: Seq<u8>, r: Result<AtResponse, AtError>) -> bool {
        acknowledged_untyped(r)
    }

    fn get_command<'a>(&'a self, buffer: &'a mut BufferType) -> (r: Result<&'a [u8], usize>) {
        let command = SetCommand::begin(buffer, "+CSNTPSTART").string(self.url.as_bytes());
        match self.tzinfo {
            None => {
                assert(command.text() + Seq::<u8>::empty() =~= command.text());
                command.finish()
            },
            Some(tzinfo) => command.string(tzinfo.as_bytes()).finish(),
        }
    }

    fn parse_response(&self, _data: &[u8]) -> (r: Result<AtResponse, AtError>) {
        Ok(AtResponse::Okay)
    }

    fn parse_response_struct(&self, data: &[u8]) -> (r: Result<Self::Response, AtError>) {
        super::verify_acknowledged(data)
    }
}

/// The command that stops the query of the NTP server.
#[derive(Clone, Copy, Debug)]
pub struct StopQueryNTP;

impl AtRequest for StopQueryNTP {
    type Response = ();

    open spec fn encoded(&self, capacity: nat) -> Result<Seq<u8>, usize> {
        finished(query_text("+CSNTPSTOP".spec_bytes()), capacity)
    }

    open spec fn decoded(&self, data: Seq<u8>, r: Result<Self::Response, AtError>) -> bool {
        acknowledged(data, r)
    }

    open spec fn decoded_untyped(&self, data: Seq<u8>, r: Result<AtResponse, AtError>) -> bool {
        acknowledged_untyped(r)
    }

    fn get_command<'a>(&'a self, buffer: &'a mut BufferType) -> (r: Result<&'a [u8], usize>) {
        query_command(buffer, "+CSNTPSTOP")
    }

    fn parse_response(&self, _data: &[u8]) -> (r: Result<AtResponse, AtError>) {
        Ok(AtResponse::Okay)
    }

    fn parse_response_struct(&self, data: &[u8]) -> (r: Result<Self::Response, AtError>) {
        super::verify_acknowledged(data)
    }
}

} // verus!
