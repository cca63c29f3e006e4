//! The HTTP commands of the module.

use vstd::prelude::*;
use vstd::string::StringSliceAdditionalSpecFns;
use crate::at_command::{
    acknowledged, acknowledged_untyped, fails_with, handle_of, int_reply, parse_int_reply,
    to_handle, AtRequest, AtResponse, BufferType,
};
use crate::bounded::BoundedText;
use crate::builder::{
    finished, int_parameter, query_command, query_text, set_text, string_parameter, SetCommand,
};
use crate::wire::Cursor;
use crate::AtError;

verus! {

/// A handle of an HTTP client of the module.
#[derive(Clone, Copy, Debug, PartialEq, Eq, Structural)]
pub struct HttpClient {
    pub client_id: u8,
}

/// An HTTP session as the module lists it.
#[derive(Clone, Copy, Debug)]
pub struct HttpSession<'a> {
    pub client_id: u8,
    pub successful: bool,
    pub host: &'a str,
}

/// The number of sessions that the module lists.
pub const DEFAULT_N_SESSIONS: usize = 4;

/// The largest number of bytes of a host.
pub const DEFAULT_HOST_MAX_SIZE: usize = 255;

/// The query for the HTTP sessions of the module.
#[derive(Clone, Copy, Debug)]
pub struct GetHttpSessions {}

/// Whether a session was created.
#[derive(Clone, Copy, Debug, PartialEq, Eq, Structural)]
pub enum HttpSessionState {
    /// Reported as 1.
    Sucessfully,
    /// Reported as 0.
    Failed,
}

impl HttpSessionState {
    /// The state that the module writes as `value`, if there is one.
    pub open spec fn of_code(value: i32) -> Option<HttpSessionState> {
        if value == 1 {
            Some(HttpSessionState::Sucessfully)
        } else if value == 0 {
            Some(HttpSessionState::Failed)
        } else {
            None
        }
    }

    /// Reads the number `value` of a reply.
    pub fn from_code(value: i32) -> (r: Option<HttpSessionState>)
        ensures
            r == HttpSessionState::of_code(value),
    {
        match value {
            1 => Some(HttpSessionState::Sucessfully),
            0 => Some(HttpSessionState::Failed),
            _ => None,
        }
    }
}

/// One line of the list of sessions.
#[derive(Debug)]
pub struct HttpSessionInformation {
    pub http_client_id: i32,
    pub state: HttpSessionState,
    pub host: BoundedText<DEFAULT_HOST_MAX_SIZE>,
}

/// One line of the list of sessions, as it is read.
pub struct SessionLine {
    pub http_client_id: i32,
    pub state: i32,
    pub host: Seq<u8>,
}

impl SessionLine {
    /// Whether the line's state is one and its host fits.
    pub open spec fn kept_by(self, kept: HttpSessionInformation) -> bool {
        &&& kept.http_client_id == self.http_client_id
        &&& Some(kept.state) == HttpSessionState::of_code(self.state)
        &&& kept.host@ == self.host
    }
}

/// Reads one line of the list at `cursor`: `+CHTTPCREATE: `, the client,
/// the state, and the host up to the end of the line.
pub open spec fn session_line(data: Seq<u8>, cursor: Cursor) -> (Cursor, SessionLine) {
    let client = cursor.after_identifier(data, "\r\n+CHTTPCREATE: ".spec_bytes()).after_integer(
        data,
    );
    let state = client.0.after_integer(data);
    let host = state.0.after_text(data);
    (host.0, SessionLine { http_client_id: client.1, state: state.1, host: host.1 })
}

fn read_session_line<'a>(data: &'a [u8], cursor: Cursor) -> (r: (Cursor, i32, i32, &'a str))
    ensures
        r.0 == session_line(data@, cursor).0,
        r.1 == session_line(data@, cursor).1.http_client_id,
        r.2 == session_line(data@, cursor).1.state,
        r.3.spec_bytes() == session_line(data@, cursor).1.host,
{
    let (cursor, client) = cursor.identifier(data, "\r\n+CHTTPCREATE: ".as_bytes()).integer(data);
    let (cursor, state) = cursor.integer(data);
    let (cursor, host) = cursor.text(data);
    (cursor, client, state, host)
}

/// Whether a line can be kept: its state is one, and its host fits.
pub open spec fn line_error(line: SessionLine) -> Option<AtError> {
    if HttpSessionState::of_code(line.state) is None {
        Some(AtError::AtParseError)
    } else if !BoundedText::<DEFAULT_HOST_MAX_SIZE>::admits(line.host.len()) {
        Some(AtError::CapacityError)
    } else {
        None
    }
}

fn keep_line(client: i32, state: i32, host: &str) -> (r: Result<HttpSessionInformation, AtError>)
    ensures
        match r {
            Ok(kept) => line_error(
                SessionLine { http_client_id: client, state, host: host.spec_bytes() },
            ) is None && SessionLine {
                http_client_id: client,
                state,
                host: host.spec_bytes(),
            }.kept_by(kept),
            Err(e) => line_error(
                SessionLine { http_client_id: client, state, host: host.spec_bytes() },
            ) == Some(e),
        },
{
    match HttpSessionState::from_code(state) {
        Some(state) => match BoundedText::new(host) {
            Ok(host) => Ok(HttpSessionInformation { http_client_id: client, state, host }),
            Err(e) => Err(e),
        },
        None => Err(AtError::AtParseError),
    }
}

impl GetHttpSessions {
    /// The four lines of a reply, and whether the reply is well formed.
    pub open spec fn lines_of(data: Seq<u8>) -> (
        bool,
        SessionLine,
        SessionLine,
        SessionLine,
        SessionLine,
    ) {
        let first = session_line(data, Cursor::start());
        let second = session_line(data, first.0);
        let third = session_line(data, second.0);
        let fourth = session_line(data, third.0);
        (fourth.0.valid, first.1, second.1, third.1, fourth.1)
    }

    /// The first reason, in the order of the lines, for which a line of a
    /// well-formed reply cannot be kept.
    pub open spec fn first_error(data: Seq<u8>) -> Option<AtError> {
        let lines = Self::lines_of(data);
        if line_error(lines.1) is Some {
            line_error(lines.1)
        } else if line_error(lines.2) is Some {
            line_error(lines.2)
        } else if line_error(lines.3) is Some {
            line_error(lines.3)
        } else {
            line_error(lines.4)
        }
    }
}

impl AtRequest for GetHttpSessions {
    type Response = [HttpSessionInformation; DEFAULT_N_SESSIONS];

    open spec fn encoded(&self, capacity: nat) -> Result<Seq<u8>, usize> {
        finished(query_text("+CHTTPCREATE".spec_bytes()), capacity)
    }

    open spec fn decoded(&self, data: Seq<u8>, r: Result<Self::Response, AtError>) -> bool {
        {
            let lines = Self::lines_of(data);
            if !lines.0 {
                fails_with(r, AtError::AtParseError)
            } else {
                match Self::first_error(data) {
                    Some(e) => fails_with(r, e),
                    None => {
                        &&& r is Ok
                        &&& lines.1.kept_by(r.unwrap()[0])
                        &&& lines.2.kept_by(r.unwrap()[1])
                        &&& lines.3.kept_by(r.unwrap()[2])
                        &&& lines.4.kept_by(r.unwrap()[3])
                    },
                }
            }
        }
    }

    open spec fn decoded_untyped(&self, data: Seq<u8>, r: Result<AtResponse, AtError>) -> bool {
        {
            let lines = Self::lines_of(data);
            r == if lines.0 {
                Ok::<AtResponse, AtError>(
                    AtResponse::HttpSessions(
                        handle_of(lines.1.http_client_id),
                        lines.1.state != 0,
                        handle_of(lines.2.http_client_id),
                        lines.2.state != 0,
                        handle_of(lines.3.http_client_id),
                        lines.3.state != 0,
                        handle_of(lines.4.http_client_id),
                        lines.4.state != 0,
                    ),
                )
            } else {
                Err::<AtResponse, AtError>(AtError::AtParseError)
            }
        }
    }

    fn get_command<'a>(&'a self, buffer: &'a mut BufferType) -> (r: Result<&'a [u8], usize>) {
        query_command(buffer, "+CHTTPCREATE")
    }

    fn parse_response(&self, data: &[u8]) -> (r: Result<AtResponse, AtError>) {
        let (cursor, cid0, state0, _) = read_session_line(data, Cursor::new());
        let (cursor, cid1, state1, _) = read_session_line(data, cursor);
        let (cursor, cid2, state2, _) = read_session_line(data, cursor);
        let (cursor, cid3, state3, _) = read_session_line(data, cursor);
        if !cursor.valid {
            return Err(AtError::AtParseError);
        }
        Ok(
            AtResponse::HttpSessions(
                to_handle(cid0),
                state0 != 0,
                to_handle(cid1),
                state1 != 0,
                to_handle(cid2),
                state2 != 0,
                to_handle(cid3),
                state3 != 0,
            ),
        )
    }

    fn parse_response_struct(&self, data: &[u8]) -> (r: Result<Self::Response, AtError>) {
        let (cursor, cid0, state0, host0) = read_session_line(data, Cursor::new());
        let (cursor, cid1, state1, host1) = read_session_line(data, cursor);
        let (cursor, cid2, state2, host2) = read_session_line(data, cursor);
        let (cursor, cid3, state3, host3) = read_session_line(data, cursor);
        if !cursor.valid {
            return Err(AtError::AtParseError);
        }
        let http_session_0 = keep_line(cid0, state0, host0)?;
        let http_session_1 = keep_line(cid1, state1, host1)?;
        let http_session_2 = keep_line(cid2, state2, host2)?;
        let http_session_3 = keep_line(cid3, state3, host3)?;
        Ok([http_session_0, http_session_1, http_session_2, http_session_3])
    }
}

/// The command that creates an HTTP or HTTPS session with a host.
#[derive(Clone, Copy, Debug)]
pub struct CreateHttpSession<'a> {
    pub host: &'a str,
    pub user: Option<&'a str>,
    pub password: Option<&'a str>,
}

/// The response to [`CreateHttpSession`].
#[derive(Clone, Copy, Debug, PartialEq, Eq, Structural)]
pub struct CreateHttpSessionResponse {
    pub client_id: u8,
}

impl CreateHttpSession<'_> {
    /// The client that a reply names.
    pub open spec fn client_of(data: Seq<u8>) -> Result<u8, AtError> {
        match int_reply(data, "\r\n+CHTTPCREATE: ".spec_bytes(), "\r\n\r\nOK\r\n".spec_bytes()) {
            Ok(client_id) => Ok(handle_of(client_id)),
            Err(e) => Err(e),
        }
    }

    fn get_client_id(data: &[u8]) -> (r: Result<u8, AtError>)
        ensures
            r == Self::client_of(data@),
    {
        match parse_int_reply(data, "\r\n+CHTTPCREATE: ", "\r\n\r\nOK\r\n") {
            Ok(client_id) => Ok(to_handle(client_id)),
            Err(e) => Err(e),
        }
    }
}

impl AtRequest for CreateHttpSession<'_> {
    type Response = CreateHttpSessionResponse;

    open spec fn encoded(&self, capacity: nat) -> Result<Seq<u8>, usize> {
        finished(
            set_text("+CHTTPCREATE".spec_bytes()) + string_parameter(self.host.spec_bytes()),
            capacity,
        )
    }

    open spec fn decoded(&self, data: Seq<u8>, r: Result<Self::Response, AtError>) -> bool {
        r == match Self::client_of(data) {
            Ok(client_id) => Ok(CreateHttpSessionResponse { client_id }),
            Err(e) => Err(e),
        }
    }

    open spec fn decoded_untyped(&self, data: Seq<u8>, r: Result<AtResponse, AtError>) -> bool {
        r == match Self::client_of(data) {
            Ok(client_id) => Ok(AtResponse::HTTPSessionCreated(client_id)),
            Err(e) => Err(e),
        }
    }

    fn get_command<'a>(&'a self, buffer: &'a mut BufferType) -> (r: Result<&'a [u8], usize>) {
        SetCommand::begin(buffer, "+CHTTPCREATE").string(self.host.as_bytes()).finish()
    }

    fn parse_response(&self, data: &[u8]) -> (r: Result<AtResponse, AtError>) {
        match Self::get_client_id(data) {
            Ok(client_id) => Ok(AtResponse::HTTPSessionCreated(client_id)),
            Err(e) => Err(e),
        }
    }

    fn parse_response_struct(&self, data: &[u8]) -> (r: Result<Self::Response, AtError>) {
        match Self::get_client_id(data) {
            Ok(client_id) => Ok(CreateHttpSessionResponse { client_id }),
            Err(e) => Err(e),
        }
    }
}

/// The command that connects a client to its host.
#[derive(Clone, Copy, Debug)]
pub struct HttpConnect {
    pub client_id: u8,
}

impl AtRequest for HttpConnect {
    type Response = ();

    open spec fn encoded(&self, capacity: nat) -> Result<Seq<u8>, usize> {
        finished(
            set_text("+CHTTPCON".spec_bytes()) + int_parameter(self.client_id as int),
            capacity,
        )
    }

    open spec fn decoded(&self, data: Seq<u8>, r: Result<Self::Response, AtError>) -> bool {
        acknowledged(data, r)
    }

    open spec fn decoded_untyped(&self, data: Seq<u8>, r: Result<AtResponse, AtError>) -> bool {
        acknowledged_untyped(r)
    }

    fn get_command<'a>(&'a self, buffer: &'a mut BufferType) -> (r: Result<&'a [u8], usize>) {
        SetCommand::begin(buffer, "+CHTTPCON").integer(self.client_id as i32).finish()
    }

    fn parse_response(&self, _data: &[u8]) -> (r: Result<AtResponse, AtError>) {
        Ok(AtResponse::Okay)
    }

    fn parse_response_struct(&self, data: &[u8]) -> (r: Result<Self::Response, AtError>) {
        super::verify_acknowledged(data)
    }
}

/// The command that disconnects a client from its host.
#[derive(Clone, Copy, Debug)]
pub struct HttpDisconnect {
    pub client_id: u8,
}

impl AtRequest for HttpDisconnect {
    type Response = ();

    open spec fn encoded(&self, capacity: nat) -> Result<Seq<u8>, usize> {
        finished(
            set_text("+CHTTPDISCON".spec_bytes()) + int_parameter(self.client_id as int),
            capacity,
        )
    }

    open spec fn decoded(&self, data: Seq<u8>, r: Result<Self::Response, AtError>) -> bool {
        acknowledged(data, r)
    }

    open spec fn decoded_untyped(&self, data: Seq<u8>, r: Result<AtResponse, AtError>) -> bool {
        acknowledged_untyped(r)
    }

    fn get_command<'a>(&'a self, buffer: &'a mut BufferType) -> (r: Result<&'a [u8], usize>) {
        SetCommand::begin(buffer, "+CHTTPDISCON").integer(self.client_id as i32).finish()
    }

    fn parse_response(&self, _data: &[u8]) -> (r: Result<AtResponse, AtError>) {
        Ok(AtResponse::Okay)
    }

    fn parse_response_struct(&self, data: &[u8]) -> (r: Result<Self::Response, AtError>) {
        super::verify_acknowledged(data)
    }
}

/// The command that gives a client up.
#[derive(Clone, Copy, Debug)]
pub struct HttpDestroy {
    pub client_id: u8,
}

impl AtRequest for HttpDestroy {
    type Response = ();

    open spec fn encoded(&self, capacity: nat) -> Result<Seq<u8>, usize> {
        finished(
            set_text("+CHTTPDESTROY".spec_bytes()) + int_parameter(self.client_id as int),
            capacity,
        )
    }

    open spec fn decoded(&self, data: Seq<u8>, r: Result<Self::Response, AtError>) -> bool {
        acknowledged(data, r)
    }

    open spec fn decoded_untyped(&self, data: Seq<u8>, r: Result<AtResponse, AtError>) -> bool {
        acknowledged_untyped(r)
    }

    fn get_command<'a>(&'a self, buffer: &'a mut BufferType) -> (r: Result<&'a [u8], usize>) {
        SetCommand::begin(buffer, "+CHTTPDESTROY").integer(self.client_id as i32).finish()
    }

    fn parse_response(&self, _data: &[u8]) -> (r: Result<AtResponse, AtError>) {
        Ok(AtResponse::Okay)
    }

    fn parse_response_struct(&self, data: &[u8]) -> (r: Result<Self::Response, AtError>) {
        super::verify_acknowledged(data)
    }
}

/// The method of an HTTP request.
#[derive(Clone, Copy, Debug, PartialEq, Eq, Structural)]
pub enum HttpMethod {
    /// Reads a resource.
    GET,
    /// Hands data to a resource.
    POST,
    /// Stores a resource.
    PUT,
    /// Removes a resource.
    DELETE,
}

impl HttpMethod {
    /// The value that the module writes as `value`, if there is one.
    pub open spec fn of_code(value: i32) -> Option<HttpMethod> {
        if value == 0 {
            Some(HttpMethod::GET)
        } else if value == 1 {
            Some(HttpMethod::POST)
        } else if value == 2 {
            Some(HttpMethod::PUT)
        } else if value == 3 {
            Some(HttpMethod::DELETE)
        } else {
            None
        }
    }

    /// The number that the module writes for this value.
    pub open spec fn code_spec(self) -> i32 {
        match self {
            HttpMethod::GET => 0,
            HttpMethod::POST => 1,
            HttpMethod::PUT => 2,
            HttpMethod::DELETE => 3,
        }
    }

    /// Reads the number `value` of a reply.
    pub fn from_code(value: i32) -> (r: Option<HttpMethod>)
        ensures
            r == HttpMethod::of_code(value),
            r is Some ==> r.unwrap().code_spec() == value,
    {
        match value {
            0 => Some(HttpMethod::GET),
            1 => Some(HttpMethod::POST),
            2 => Some(HttpMethod::PUT),
            3 => Some(HttpMethod::DELETE),
            _ => None,
        }
    }

    /// The number that the module writes for this value.
    pub fn code(self) -> (r: i32)
        ensures
            r == self.code_spec(),
            HttpMethod::of_code(r) == Some(self),
    {
        match self {
            HttpMethod::GET => 0,
            HttpMethod::POST => 1,
            HttpMethod::PUT => 2,
            HttpMethod::DELETE => 3,
        }
    }
}

/// The command that sends a request to a path of the host.
#[derive(Clone, Copy, Debug)]
pub struct HttpSend<'a> {
    pub client_id: u8,
    pub method: HttpMethod,
    pub path: &'a str,
}

impl AtRequest for HttpSend<'_> {
    type Response = ();

    open spec fn encoded(&self, capacity: nat) -> Result<Seq<u8>, usize> {
        finished(
            set_text("+CHTTPSEND".spec_bytes()) + int_parameter(self.client_id as int)
                + int_parameter(self.method.code_spec() as int) + string_parameter(
                self.path.spec_bytes(),
            ),
            capacity,
        )
    }

    open spec fn decoded(&self, data: Seq<u8>, r: Result<Self::Response, AtError>) -> bool {
        acknowledged(data, r)
    }

    open spec fn decoded_untyped(&self, data: Seq<u8>, r: Result<AtResponse, AtError>) -> bool {
        acknowledged_untyped(r)
    }

    fn get_command<'a>(&'a self, buffer: &'a mut BufferType) -> (r: Result<&'a [u8], usize>) {
        SetCommand::begin(buffer, "+CHTTPSEND").integer(self.client_id as i32).integer(
            self.method.code(),
        ).string(self.path.as_bytes()).finish()
    }

    fn parse_response(&self, _data: &[u8]) -> (r: Result<AtResponse, AtError>) {
        Ok(AtResponse::Okay)
    }

    fn parse_response_struct(&self, data: &[u8]) -> (r: Result<Self::Response, AtError>) {
        super::verify_acknowledged(data)
    }
}

} // verus!
