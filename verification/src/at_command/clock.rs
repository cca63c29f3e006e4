//! The module's clock: `+CCLK`.

use vstd::prelude::*;
use vstd::string::StringSliceAdditionalSpecFns;
use vstd::std_specs::convert::FromSpecImpl;
use vstd::utf8::is_char_boundary;
use crate::at_command::{parse_text_reply, text_reply, AtRequest, AtResponse, BufferType};
use crate::builder::{finished, query_command, query_text};
use crate::AtError;

verus! {

/// `chrono::format::ParseError`: why a text is no date and time.
#[verifier::external_type_specification]
#[verifier::external_body]
pub struct ExDateTimeParseError(chrono::format::ParseError);

/// The seconds since the start of 1970 of the date and time that `text`
/// denotes under `format`, read as UTC; nothing where `text` does not match
/// `format` or names no date and time.
pub uninterp spec fn date_time_seconds(text: Seq<u8>, format: Seq<u8>) -> Option<i64>;

/// The seconds of a parsed date and time, if the parse succeeded.
pub open spec fn seconds_of(parsed: Result<i64, chrono::format::ParseError>) -> Option<i64> {
    match parsed {
        Ok(seconds) => Some(seconds),
        Err(_) => None,
    }
}

/// `chrono::NaiveDateTime::parse_from_str`, then `and_utc` and `timestamp`:
/// the date and time that `text` denotes under `format`, read as UTC, in
/// seconds since the start of 1970; or the error of the parse.
#[verifier::external_body]
fn parse_date_time(text: &str, format: &str) -> (r: Result<i64, chrono::format::ParseError>)
    ensures
        seconds_of(r) == date_time_seconds(text.spec_bytes(), format.spec_bytes()),
{
    match chrono::NaiveDateTime::parse_from_str(text, format) {
        Ok(date_time) => Ok(date_time.and_utc().timestamp()),
        Err(e) => Err(e),
    }
}

impl From<chrono::format::ParseError> for AtError {
    fn from(_error: chrono::format::ParseError) -> (r: AtError) {
        AtError::ParseClockError
    }
}

impl FromSpecImpl<chrono::format::ParseError> for AtError {
    open spec fn obeys_from_spec() -> bool {
        true
    }

    open spec fn from_spec(_error: chrono::format::ParseError) -> AtError {
        AtError::ParseClockError
    }
}

/// The query for the module's clock.
#[derive(Clone, Copy, Debug)]
pub struct Clock {}

/// The number of leading bytes of the clock's text that hold the date and
/// the time; the time zone follows them.
pub const DATE_TIME_LEN: usize = 17;

/// The timestamp for what the date and time of a clock text were read as:
/// the seconds, or the clock error where the text is no date and time.
pub open spec fn timestamp_for(seconds: Option<i64>) -> Result<i64, AtError> {
    match seconds {
        Some(seconds) => Ok(seconds),
        None => Err(AtError::ParseClockError),
    }
}

/// Turns the outcome of reading a date and time into a timestamp.
pub fn to_timestamp(parsed: Result<i64, chrono::format::ParseError>) -> (r: Result<i64, AtError>)
    ensures
        r == timestamp_for(seconds_of(parsed)),
{
    match parsed {
        Ok(seconds) => Ok(seconds),
        Err(e) => Err(AtError::from(e)),
    }
}

impl Clock {
    /// The text of the clock in a reply.
    pub open spec fn text_of(data: Seq<u8>) -> Result<Seq<u8>, AtError> {
        text_reply(data, "\r\n+CCLK: ".spec_bytes(), "\r\n\r\nOK".spec_bytes())
    }

    /// The timestamp of a reply: the first 17 bytes of the clock's text,
    /// which have the form `yy/mm/dd,hh:mm:ss`, read as UTC. A text that is
    /// shorter, or cannot be cut there, or holds no date and time, is a
    /// clock error.
    pub open spec fn timestamp_of(data: Seq<u8>) -> Result<i64, AtError> {
        match Self::text_of(data) {
            Ok(text) => if text.len() >= DATE_TIME_LEN && is_char_boundary(
                text,
                DATE_TIME_LEN as int,
            ) {
                timestamp_for(
                    date_time_seconds(
                        text.subrange(0, DATE_TIME_LEN as int),
                        "%y/%m/%d,%H:%M:%S".spec_bytes(),
                    ),
                )
            } else {
                Err(AtError::ParseClockError)
            },
            Err(e) => Err(e),
        }
    }

    fn get_timestamp(data: &[u8]) -> (r: Result<i64, AtError>)
        ensures
            r == Self::timestamp_of(data@),
    {
        match parse_text_reply(data, "\r\n+CCLK: ", "\r\n\r\nOK") {
            Ok(text) => {
                if text.as_bytes().len() < DATE_TIME_LEN || !text.is_char_boundary(DATE_TIME_LEN) {
                    return Err(AtError::ParseClockError);
                }
                let (date_time, _zone) = text.split_at(DATE_TIME_LEN);
                to_timestamp(parse_date_time(date_time, "%y/%m/%d,%H:%M:%S"))
            },
            Err(e) => Err(e),
        }
    }
}

impl AtRequest for Clock {
    type Response = i64;

    open spec fn encoded(&self, capacity: nat) -> Result<Seq<u8>, usize> {
        finished(query_text("+CCLK".spec_bytes()), capacity)
    }

    open spec fn decoded(&self, data: Seq<u8>, r: Result<Self::Response, AtError>) -> bool {
        r == Self::timestamp_of(data)
    }

    open spec fn decoded_untyped(&self, data: Seq<u8>, r: Result<AtResponse, AtError>) -> bool {
        r == match Self::timestamp_of(data) {
            Ok(timestamp) => Ok(AtResponse::NTPTimestamp(timestamp)),
            Err(e) => Err(e),
        }
    }

    fn get_command<'a>(&'a self, buffer: &'a mut BufferType) -> (r: Result<&'a [u8], usize>) {
        query_command(buffer, "+CCLK")
    }

    fn parse_response(&self, data: &[u8]) -> (r: Result<AtResponse, AtError>) {
        match Self::get_timestamp(data) {
            Ok(timestamp) => Ok(AtResponse::NTPTimestamp(timestamp)),
            Err(e) => Err(e),
        }
    }

    fn parse_response_struct(&self, data: &[u8]) -> (r: Result<Self::Response, AtError>) {
        Self::get_timestamp(data)
    }
}

} // verus!
