//! The bare probe: `AT`.

use vstd::prelude::*;
use vstd::string::StringSliceAdditionalSpecFns;
use crate::at_command::{acknowledged, fixed_line, AtRequest, AtResponse, BufferType};
use crate::wire::Cursor;
use crate::AtError;

verus! {

/// The probe command. The module answers it whenever it is ready.
#[derive(Clone, Copy, Debug)]
pub struct At {}

impl At {
    /// The line of the bare probe.
    pub open spec fn probe_line() -> Seq<u8> {
        "AT\r\n".spec_bytes()
    }

    /// The text of two probes is the probe line twice.
    pub proof fn lemma_probe_twice()
        ensures
            "AT\r\nAT\r\n".spec_bytes() == Self::probe_line() + Self::probe_line(),
    {
        reveal_strlit("AT\r\n");
        reveal_strlit("AT\r\nAT\r\n");
        vstd::string::is_ascii_spec_bytes("AT\r\n");
        vstd::string::is_ascii_spec_bytes("AT\r\nAT\r\n");
        assert("AT\r\nAT\r\n".spec_bytes() =~= "AT\r\n".spec_bytes() + "AT\r\n".spec_bytes());
    }

    /// Whether a reply is the echoed probe with the two lines of text that
    /// the module sends on start-up, and the acknowledgement.
    pub open spec fn is_startup_reply(data: Seq<u8>) -> bool {
        Cursor::start().after_identifier(data, "AT\r\r\n".spec_bytes()).after_text(
            data,
        ).0.after_identifier(data, "\r\n\r\n".spec_bytes()).after_text(data).0.after_identifier(
            data,
            "\r\nAT\r\r\nOK\r".spec_bytes(),
        ).valid
    }
}

impl AtRequest for At {
    type Response = ();

    open spec fn encoded(&self, capacity: nat) -> Result<Seq<u8>, usize> {
        fixed_line(At::probe_line())
    }

    open spec fn decoded(&self, data: Seq<u8>, r: Result<Self::Response, AtError>) -> bool {
        acknowledged(data, r)
    }

    open spec fn decoded_untyped(&self, data: Seq<u8>, r: Result<AtResponse, AtError>) -> bool {
        r == if At::is_startup_reply(data) {
            Ok::<AtResponse, AtError>(AtResponse::Okay)
        } else {
            Err::<AtResponse, AtError>(AtError::AtParseError)
        }
    }

    fn get_command<'a>(&'a self, buffer: &'a mut BufferType) -> (r: Result<&'a [u8], usize>) {
        Ok("AT\r\n".as_bytes())
    }

    fn parse_response(&self, data: &[u8]) -> (r: Result<AtResponse, AtError>) {
        let (cursor, _) = Cursor::new().identifier(data, "AT\r\r\n".as_bytes()).text(data);
        let (cursor, _) = cursor.identifier(data, "\r\n\r\n".as_bytes()).text(data);
        if cursor.identifier(data, "\r\nAT\r\r\nOK\r".as_bytes()).valid {
            Ok(AtResponse::Okay)
        } else {
            Err(AtError::AtParseError)
        }
    }

    fn parse_response_struct(&self, data: &[u8]) -> (r: Result<Self::Response, AtError>) {
        super::verify_acknowledged(data)
    }
}

} // verus!
