//! MQTT: the commands of the module, and the lifecycle of a session.

use vstd::prelude::*;
use vstd::string::StringSliceAdditionalSpecFns;
use crate::at_command::{
    acknowledged, acknowledged_untyped, fails_with, flag, flag_of, handle_of, to_handle,
    AtRequest, AtResponse, BufferType, MAX_MESSAGE_SIZE,
};
use crate::builder::{
    finished, int_parameter, query_command, query_text, set_text, string_parameter, SetCommand,
};
use crate::wire::{fill_padded, zero_padded, Cursor};
use crate::AtError;

verus! {

/// The number of bytes that the server of a session is kept in.
pub const MAX_SERVER_LEN: usize = 50;

/// The settings of a new MQTT session.
#[derive(Clone, Copy, Debug)]
pub struct MQTTSessionSettings<'a> {
    /// The server's address.
    pub server: &'a str,
    /// The server's port.
    pub port: u16,
    /// The time the module waits for the server, in milliseconds.
    pub timeout_ms: u16,
    /// The size of the module's buffer for the session, from 20 to 1132.
    pub buffer_size: u16,
    /// The packet data context, where one is named.
    pub context_id: Option<u16>,
}

impl<'a> MQTTSessionSettings<'a> {
    /// The settings for `server` and `port`, with a timeout of five seconds
    /// and a buffer of 600 bytes.
    pub fn new(server: &'a str, port: u16) -> (r: MQTTSessionSettings<'a>)
        ensures
            r.server == server,
            r.port == port,
            r.timeout_ms == 5000,
            r.buffer_size == 600,
            r.context_id is None,
    {
        let timeout_ms: u16 = 5000;
        let buffer_size: u16 = 600;
        MQTTSessionSettings { server, port, timeout_ms, buffer_size, context_id: None }
    }

    /// These settings with another timeout.
    pub fn with_timeout_ms(self, timeout_ms: u16) -> (r: Self)
        ensures
            r == (MQTTSessionSettings { timeout_ms, ..self }),
    {
        MQTTSessionSettings { timeout_ms, ..self }
    }

    /// These settings with another buffer size, which is from 20 to 1132.
    pub fn with_buffer_size(self, buffer_size: u16) -> (r: Self)
        requires
            20 <= buffer_size <= 1132,
        ensures
            r == (MQTTSessionSettings { buffer_size, ..self }),
    {
        MQTTSessionSettings { buffer_size, ..self }
    }

    /// These settings with another packet data context.
    pub fn with_context_id(self, context_id: Option<u16>) -> (r: Self)
        ensures
            r == (MQTTSessionSettings { context_id, ..self }),
    {
        MQTTSessionSettings { context_id, ..self }
    }

    /// The session that a reply names: after any whitespace, `+CMQNEW: `,
    /// a number, any whitespace, and `OK`.
    pub open spec fn session_of(data: Seq<u8>) -> Result<u8, AtError> {
        let id = Cursor::start().after_whitespace(data).after_identifier(
            data,
            "+CMQNEW: ".spec_bytes(),
        ).after_integer(data);
        if id.0.after_whitespace(data).after_identifier(data, "OK".spec_bytes()).valid {
            Ok(handle_of(id.1))
        } else {
            Err(AtError::AtParseError)
        }
    }

    fn get_session_id(data: &[u8]) -> (r: Result<u8, AtError>)
        ensures
            r == Self::session_of(data@),
    {
        let (cursor, mqtt_id) = Cursor::new().whitespace(data).identifier(
            data,
            "+CMQNEW: ".as_bytes(),
        ).integer(data);
        if cursor.whitespace(data).identifier(data, "OK".as_bytes()).valid {
            Ok(to_handle(mqtt_id))
        } else {
            Err(AtError::AtParseError)
        }
    }
}

impl AtRequest for MQTTSessionSettings<'_> {
    type Response = u8;

    open spec fn encoded(&self, capacity: nat) -> Result<Seq<u8>, usize> {
        finished(
            set_text("+CMQNEW".spec_bytes()) + string_parameter(self.server.spec_bytes())
                + int_parameter(self.port as int) + int_parameter(self.timeout_ms as int)
                + int_parameter(self.buffer_size as int),
            capacity,
        )
    }

    open spec fn decoded(&self, data: Seq<u8>, r: Result<Self::Response, AtError>) -> bool {
        r == Self::session_of(data)
    }

    open spec fn decoded_untyped(&self, data: Seq<u8>, r: Result<AtResponse, AtError>) -> bool {
        r == match Self::session_of(data) {
            Ok(mqtt_id) => Ok(AtResponse::MQTTSessionCreated(mqtt_id)),
            Err(e) => Err(e),
        }
    }

    fn get_command<'a>(&'a self, buffer: &'a mut BufferType) -> (r: Result<&'a [u8], usize>) {
        SetCommand::begin(buffer, "+CMQNEW").string(self.server.as_bytes()).integer(
            self.port as i32,
        ).integer(self.timeout_ms as i32).integer(self.buffer_size as i32).finish()
    }

    fn parse_response(&self, data: &[u8]) -> (r: Result<AtResponse, AtError>) {
        match Self::get_session_id(data) {
            Ok(mqtt_id) => Ok(AtResponse::MQTTSessionCreated(mqtt_id)),
            Err(e) => Err(e),
        }
    }

    fn parse_response_struct(&self, data: &[u8]) -> (r: Result<Self::Response, AtError>) {
        Self::get_session_id(data)
    }
}

/// Whether a session of the module is in use.
#[derive(Clone, Copy, Debug, PartialEq, Eq, Structural)]
pub enum UsedState {
    /// The session is free.
    NotUsed,
    /// The session is in use.
    Used,
}

impl UsedState {
    /// The value that the module writes as `value`, if there is one.
    pub open spec fn of_code(value: i32) -> Option<UsedState> {
        if value == 0 {
            Some(UsedState::NotUsed)
        } else if value == 1 {
            Some(UsedState::Used)
        } else {
            None
        }
    }

    /// The number that the module writes for this value.
    pub open spec fn code_spec(self) -> i32 {
        match self {
            UsedState::NotUsed => 0,
            UsedState::Used => 1,
        }
    }

    /// Reads the number `value` of a reply.
    pub fn from_code(value: i32) -> (r: Option<UsedState>)
        ensures
            r == UsedState::of_code(value),
            r is Some ==> r.unwrap().code_spec() == value,
    {
        match value {
            0 => Some(UsedState::NotUsed),
            1 => Some(UsedState::Used),
            _ => None,
        }
    }

    /// The number that the module writes for this value.
    pub fn code(self) -> (r: i32)
        ensures
            r == self.code_spec(),
            UsedState::of_code(r) == Some(self),
    {
        match self {
            UsedState::NotUsed => 0,
            UsedState::Used => 1,
        }
    }
}

/// The query for the module's MQTT session.
#[derive(Clone, Copy, Debug)]
pub struct GetMQTTSession {}

/// A session as the module lists it.
pub struct SessionFields {
    /// Whether the reply is well formed.
    pub valid: bool,
    pub mqtt_id: i32,
    pub used_state: i32,
    pub server: Seq<u8>,
}

impl GetMQTTSession {
    /// Reads a reply: `+CMQNEW: `, the session, whether it is used, the
    /// server up to the end of the line, and the acknowledgement.
    pub open spec fn fields_of(data: Seq<u8>) -> SessionFields {
        let mqtt_id = Cursor::start().after_identifier(
            data,
            "\r\n+CMQNEW: ".spec_bytes(),
        ).after_integer(data);
        let used_state = mqtt_id.0.after_integer(data);
        let server = used_state.0.after_text(data);
        SessionFields {
            valid: server.0.after_identifier(data, "\r\n\r\nOK".spec_bytes()).valid,
            mqtt_id: mqtt_id.1,
            used_state: used_state.1,
            server: server.1,
        }
    }

    /// Whether `r` is the session of the reply `data`: the server is cut
    /// to 50 bytes and padded with zeros.
    pub open spec fn is_session_of(
        data: Seq<u8>,
        r: Result<(u8, UsedState, [u8; 50]), AtError>,
    ) -> bool {
        let fields = Self::fields_of(data);
        if fields.valid && UsedState::of_code(fields.used_state) is Some {
            &&& r is Ok
            &&& r.unwrap().0 == handle_of(fields.mqtt_id)
            &&& Some(r.unwrap().1) == UsedState::of_code(fields.used_state)
            &&& r.unwrap().2@ == zero_padded(fields.server, MAX_SERVER_LEN as nat)
        } else {
            fails_with(r, AtError::AtParseError)
        }
    }

    fn get_session(data: &[u8]) -> (r: Result<(u8, UsedState, [u8; 50]), AtError>)
        ensures
            Self::is_session_of(data@, r),
    {
        let (cursor, mqtt_id) = Cursor::new().identifier(data, "\r\n+CMQNEW: ".as_bytes()).integer(
            data,
        );
        let (cursor, used_state) = cursor.integer(data);
        let (cursor, server) = cursor.text(data);
        if !cursor.identifier(data, "\r\n\r\nOK".as_bytes()).valid {
            return Err(AtError::AtParseError);
        }
        match UsedState::from_code(used_state) {
            Some(used_state) => {
                let mut server_str: [u8; 50] = [0; 50];
                fill_padded(&mut server_str, server.as_bytes());
                Ok((to_handle(mqtt_id), used_state, server_str))
            },
            None => Err(AtError::AtParseError),
        }
    }
}

impl AtRequest for GetMQTTSession {
    type Response = (u8, UsedState, [u8; 50]);

    open spec fn encoded(&self, capacity: nat) -> Result<Seq<u8>, usize> {
        finished(query_text("+CMQNEW".spec_bytes()), capacity)
    }

    open spec fn decoded(&self, data: Seq<u8>, r: Result<Self::Response, AtError>) -> bool {
        Self::is_session_of(data, r)
    }

    open spec fn decoded_untyped(&self, data: Seq<u8>, r: Result<AtResponse, AtError>) -> bool {
        match r {
            Ok(AtResponse::MQTTSession(mqtt_id, used_state, server)) => Self::is_session_of(
                data,
                Ok((mqtt_id, used_state, server)),
            ),
            Ok(_) => false,
            Err(e) => Self::is_session_of(data, Err(e)),
        }
    }

    fn get_command<'a>(&'a self, buffer: &'a mut BufferType) -> (r: Result<&'a [u8], usize>) {
        query_command(buffer, "+CMQNEW")
    }

    fn parse_response(&self, data: &[u8]) -> (r: Result<AtResponse, AtError>) {
        match Self::get_session(data) {
            Ok((mqtt_id, used_state, server)) => Ok(
                AtResponse::MQTTSession(mqtt_id, used_state, server),
            ),
            Err(e) => Err(e),
        }
    }

    fn parse_response_struct(&self, data: &[u8]) -> (r: Result<Self::Response, AtError>) {
        Self::get_session(data)
    }
}

/// The command that closes the connection of a session and gives the
/// session up.
#[derive(Clone, Copy, Debug, PartialEq, Eq, Structural)]
pub struct CloseMQTTConnection {
    pub mqtt_id: u8,
}

impl AtRequest for CloseMQTTConnection {
    type Response = ();

    open spec fn encoded(&self, capacity: nat) -> Result<Seq<u8>, usize> {
        finished(set_text("+CMQDISCON".spec_bytes()) + int_parameter(self.mqtt_id as int), capacity)
    }

    open spec fn decoded(&self, data: Seq<u8>, r: Result<Self::Response, AtError>) -> bool {
        acknowledged(data, r)
    }

    open spec fn decoded_untyped(&self, data: Seq<u8>, r: Result<AtResponse, AtError>) -> bool {
        acknowledged_untyped(r)
    }

    fn get_command<'a>(&'a self, buffer: &'a mut BufferType) -> (r: Result<&'a [u8], usize>) {
        SetCommand::begin(buffer, "+CMQDISCON").integer(self.mqtt_id as i32).finish()
    }

    fn parse_response(&self, _data: &[u8]) -> (r: Result<AtResponse, AtError>) {
        Ok(AtResponse::Okay)
    }

    fn parse_response_struct(&self, data: &[u8]) -> (r: Result<Self::Response, AtError>) {
        super::verify_acknowledged(data)
    }
}

/// The version of the MQTT protocol.
#[derive(Clone, Copy, Debug, PartialEq, Eq, Structural)]
pub enum MQTTVersion {
    /// Version 3.1, which the module writes as 3.
    MQTT31,
    /// Version 3.1.1, which the module writes as 4.
    MQTT311,
}

impl MQTTVersion {
    /// The number that the module writes for this version.
    pub open spec fn code_spec(self) -> i32 {
        match self {
            MQTTVersion::MQTT31 => 3,
            MQTTVersion::MQTT311 => 4,
        }
    }

    /// The number that the module writes for this version.
    pub fn code(self) -> (r: i32)
        ensures
            r == self.code_spec(),
    {
        match self {
            MQTTVersion::MQTT31 => 3,
            MQTTVersion::MQTT311 => 4,
        }
    }
}

/// The message that the server publishes when a client is lost.
#[derive(Clone, Copy, Debug)]
pub struct WillOptions<'a> {
    pub topic: &'a str,
    pub quality_of_service: u8,
    pub retained: bool,
}

/// The command that connects a session to its server.
#[derive(Clone, Copy, Debug)]
pub struct MQTTConnectionSettingsWithID<'a> {
    pub mqtt_id: u8,
    pub version: MQTTVersion,
    pub client_id: &'a str,
    /// From 0 to 64800 seconds.
    pub keepalive_interval: u16,
    pub clean_session: bool,
    pub will_flag: bool,
    pub username: &'a str,
    pub password: &'a str,
}

/// The settings of a connection, without the session they are for.
#[derive(Clone, Copy, Debug)]
pub struct MQTTConnectionSettings<'a> {
    pub version: MQTTVersion,
    pub client_id: &'a str,
    /// From 0 to 64800 seconds.
    pub keepalive_interval: u16,
    pub clean_session: bool,
    pub will_flag: bool,
    pub username: &'a str,
    pub password: &'a str,
}

impl<'a> MQTTConnectionSettings<'a> {
    /// The command that connects the session `mqtt_id` with these settings.
    pub open spec fn for_session(self, mqtt_id: u8) -> MQTTConnectionSettingsWithID<'a> {
        MQTTConnectionSettingsWithID {
            mqtt_id,
            version: self.version,
            client_id: self.client_id,
            keepalive_interval: self.keepalive_interval,
            clean_session: self.clean_session,
            will_flag: self.will_flag,
            username: self.username,
            password: self.password,
        }
    }

    /// The command that connects the session `mqtt_id` with these settings.
    pub fn with_mqtt_id(self, mqtt_id: u8) -> (r: MQTTConnectionSettingsWithID<'a>)
        ensures
            r == self.for_session(mqtt_id),
    {
        MQTTConnectionSettingsWithID {
            mqtt_id,
            version: self.version,
            client_id: self.client_id,
            keepalive_interval: self.keepalive_interval,
            clean_session: self.clean_session,
            will_flag: self.will_flag,
            username: self.username,
            password: self.password,
        }
    }
}

impl AtRequest for MQTTConnectionSettingsWithID<'_> {
    type Response = ();

    open spec fn encoded(&self, capacity: nat) -> Result<Seq<u8>, usize> {
        finished(
            set_text("+CMQCON".spec_bytes()) + int_parameter(self.mqtt_id as int) + int_parameter(
                self.version.code_spec() as int,
            ) + string_parameter(self.client_id.spec_bytes()) + int_parameter(
                self.keepalive_interval as int,
            ) + int_parameter(flag_of(self.clean_session)) + int_parameter(flag_of(self.will_flag))
                + string_parameter(self.username.spec_bytes()) + string_parameter(
                self.password.spec_bytes(),
            ),
            capacity,
        )
    }

    open spec fn decoded(&self, data: Seq<u8>, r: Result<Self::Response, AtError>) -> bool {
        acknowledged(data, r)
    }

    open spec fn decoded_untyped(&self, data: Seq<u8>, r: Result<AtResponse, AtError>) -> bool {
        acknowledged_untyped(r)
    }

    fn get_command<'a>(&'a self, buffer: &'a mut BufferType) -> (r: Result<&'a [u8], usize>) {
        SetCommand::begin(buffer, "+CMQCON").integer(self.mqtt_id as i32).integer(
            self.version.code(),
        ).string(self.client_id.as_bytes()).integer(self.keepalive_interval as i32).integer(
            flag(self.clean_session),
        ).integer(flag(self.will_flag)).string(self.username.as_bytes()).string(
            self.password.as_bytes(),
        ).finish()
    }

    fn parse_response(&self, _data: &[u8]) -> (r: Result<AtResponse, AtError>) {
        Ok(AtResponse::Okay)
    }

    fn parse_response_struct(&self, data: &[u8]) -> (r: Result<Self::Response, AtError>) {
        super::verify_acknowledged(data)
    }
}

/// The format in which the module hands out received data.
#[derive(Clone, Copy, Debug, PartialEq, Eq, Structural)]
pub enum MQTTDataFormat {
    Bytes,
    Hex,
}

/// The command that sets the format of received data.
#[derive(Clone, Copy, Debug)]
pub struct MQTTRawData {
    pub data_format: MQTTDataFormat,
}

impl AtRequest for MQTTRawData {
    type Response = ();

    open spec fn encoded(&self, capacity: nat) -> Result<Seq<u8>, usize> {
        finished(
            set_text("+CREVHEX".spec_bytes()) + string_parameter(
                match self.data_format {
                    MQTTDataFormat::Bytes => "0".spec_bytes(),
                    MQTTDataFormat::Hex => "1".spec_bytes(),
                },
            ),
            capacity,
        )
    }

    open spec fn decoded(&self, data: Seq<u8>, r: Result<Self::Response, AtError>) -> bool {
        acknowledged(data, r)
    }

    open spec fn decoded_untyped(&self, data: Seq<u8>, r: Result<AtResponse, AtError>) -> bool {
        acknowledged_untyped(r)
    }

    fn get_command<'a>(&'a self, buffer: &'a mut BufferType) -> (r: Result<&'a [u8], usize>) {
        let format = match self.data_format {
            MQTTDataFormat::Bytes => "0",
            MQTTDataFormat::Hex => "1",
        };
        SetCommand::begin(buffer, "+CREVHEX").string(format.as_bytes()).finish()
    }

    fn parse_response(&self, _data: &[u8]) -> (r: Result<AtResponse, AtError>) {
        Ok(AtResponse::Okay)
    }

    fn parse_response_struct(&self, data: &[u8]) -> (r: Result<Self::Response, AtError>) {
        super::verify_acknowledged(data)
    }
}

/// A message to publish. Its text has from 2 to 1000 bytes.
#[derive(Clone, Copy, Debug)]
pub struct MQTTMessage<'a> {
    /// The topic, of at most 128 bytes.
    pub topic: &'a str,
    /// The quality of service: 0, 1 or 2.
    pub qos: u8,
    pub retained: bool,
    pub dup: bool,
    /// The text, in hexadecimal.
    pub message: &'a [u8],
}

/// The command that publishes a message in a session. A text of more than
/// `MAX_MESSAGE_SIZE` bytes is not encoded: the length counted is then the
/// largest that there is.
#[derive(Clone, Copy, Debug)]
pub struct MQTTPublish<'a> {
    /// The session.
    pub mqtt_id: u8,
    /// The topic, of at most 128 bytes.
    pub topic: &'a str,
    /// The quality of service: 0, 1 or 2.
    pub qos: u8,
    pub retained: bool,
    pub dup: bool,
    /// The text, in hexadecimal.
    pub message: &'a [u8],
}

impl<'a> MQTTMessage<'a> {
    /// The command that publishes this message in the session `mqtt_id`.
    pub open spec fn in_session(self, mqtt_id: u8) -> MQTTPublish<'a> {
        MQTTPublish {
            mqtt_id,
            topic: self.topic,
            qos: self.qos,
            retained: self.retained,
            dup: self.dup,
            message: self.message,
        }
    }

    /// The command that publishes this message in the session `mqtt_id`.
    pub fn publish_in(&self, mqtt_id: u8) -> (r: MQTTPublish<'a>)
        ensures
            r == self.in_session(mqtt_id),
    {
        MQTTPublish {
            mqtt_id,
            topic: self.topic,
            qos: self.qos,
            retained: self.retained,
            dup: self.dup,
            message: self.message,
        }
    }
}

impl AtRequest for MQTTPublish<'_> {
    type Response = ();

    open spec fn encoded(&self, capacity: nat) -> Result<Seq<u8>, usize> {
        if self.message@.len() > MAX_MESSAGE_SIZE {
            Err(usize::MAX)
        } else {
            finished(
                set_text("+CMQPUB".spec_bytes()) + int_parameter(self.mqtt_id as int)
                    + string_parameter(self.topic.spec_bytes()) + int_parameter(self.qos as int)
                    + int_parameter(flag_of(self.retained)) + int_parameter(flag_of(self.dup))
                    + int_parameter(self.message@.len() as int) + string_parameter(self.message@),
                capacity,
            )
        }
    }

    open spec fn decoded(&self, data: Seq<u8>, r: Result<Self::Response, AtError>) -> bool {
        acknowledged(data, r)
    }

    open spec fn decoded_untyped(&self, data: Seq<u8>, r: Result<AtResponse, AtError>) -> bool {
        acknowledged_untyped(r)
    }

    fn get_command<'a>(&'a self, buffer: &'a mut BufferType) -> (r: Result<&'a [u8], usize>) {
        if self.message.len() > MAX_MESSAGE_SIZE {
            return Err(usize::MAX);
        }
        SetCommand::begin(buffer, "+CMQPUB").integer(self.mqtt_id as i32).string(
            self.topic.as_bytes(),
        ).integer(self.qos as i32).integer(flag(self.retained)).integer(flag(self.dup)).integer(
            self.message.len() as i32,
        ).string(self.message).finish()
    }

    fn parse_response(&self, _data: &[u8]) -> (r: Result<AtResponse, AtError>) {
        Ok(AtResponse::Okay)
    }

    fn parse_response_struct(&self, data: &[u8]) -> (r: Result<Self::Response, AtError>) {
        super::verify_acknowledged(data)
    }
}

/// The command that subscribes a session to a topic.
#[derive(Clone, Copy, Debug)]
pub struct MQTTSubscribe<'a> {
    /// The session.
    pub mqtt_id: u8,
    /// The topic, of at most 128 bytes.
    pub topic: &'a str,
    /// The quality of service: 0, 1 or 2.
    pub qos: u8,
}

impl AtRequest for MQTTSubscribe<'_> {
    type Response = ();

    open spec fn encoded(&self, capacity: nat) -> Result<Seq<u8>, usize> {
        finished(
            set_text("+CMQSUB".spec_bytes()) + int_parameter(self.mqtt_id as int)
                + string_parameter(self.topic.spec_bytes()) + int_parameter(self.qos as int),
            capacity,
        )
    }

    open spec fn decoded(&self, data: Seq<u8>, r: Result<Self::Response, AtError>) -> bool {
        acknowledged(data, r)
    }

    open spec fn decoded_untyped(&self, data: Seq<u8>, r: Result<AtResponse, AtError>) -> bool {
        acknowledged_untyped(r)
    }

    fn get_command<'a>(&'a self, buffer: &'a mut BufferType) -> (r: Result<&'a [u8], usize>) {
        SetCommand::begin(buffer, "+CMQSUB").integer(self.mqtt_id as i32).string(
            self.topic.as_bytes(),
        ).integer(self.qos as i32).finish()
    }

    fn parse_response(&self, _data: &[u8]) -> (r: Result<AtResponse, AtError>) {
        Ok(AtResponse::Okay)
    }

    fn parse_response_struct(&self, data: &[u8]) -> (r: Result<Self::Response, AtError>) {
        super::verify_acknowledged(data)
    }
}

/// What goes wrong in the lifecycle of a session.
#[derive(Clone, Copy, Debug, PartialEq, Eq, Structural)]
pub enum MQTTError {
    /// The step is not legal because a session exists already, or the
    /// module failed to give a session up.
    ConnectionFailed,
    /// The step needs a session, or a connection, that is not there; or the
    /// module failed to create or to connect one.
    Disconnected,
    /// The module failed to publish.
    Publish,
}

/// The stage of a session's lifecycle.
#[derive(Clone, Copy, Debug, PartialEq, Eq, Structural)]
pub enum MqttStage {
    /// No session.
    Disconnected,
    /// The module holds a session with this handle, not connected to its
    /// server.
    SessionCreated(u8),
    /// The session with this handle is connected to its server.
    Live(u8),
}

impl MqttStage {
    /// The handle of the session, where there is one.
    pub open spec fn session(self) -> Option<u8> {
        match self {
            MqttStage::Disconnected => None,
            MqttStage::SessionCreated(mqtt_id) => Some(mqtt_id),
            MqttStage::Live(mqtt_id) => Some(mqtt_id),
        }
    }

    /// The stage after `create`, given what the engine returned for the
    /// command. Legal from `Disconnected` only; the module must name the new
    /// session.
    pub open spec fn after_create(self, reply: Result<AtResponse, AtError>) -> Result<
        MqttStage,
        MQTTError,
    > {
        match self {
            MqttStage::Disconnected => match reply {
                Ok(AtResponse::MQTTSessionCreated(mqtt_id)) => Ok(
                    MqttStage::SessionCreated(mqtt_id),
                ),
                _ => Err(MQTTError::Disconnected),
            },
            _ => Err(MQTTError::ConnectionFailed),
        }
    }

    /// The stage after `connect`, given what the engine returned for the
    /// command. Legal from `SessionCreated` only; the module must
    /// acknowledge.
    pub open spec fn after_connect(self, reply: Result<AtResponse, AtError>) -> Result<
        MqttStage,
        MQTTError,
    > {
        match self {
            MqttStage::Disconnected => Err(MQTTError::Disconnected),
            MqttStage::SessionCreated(mqtt_id) => match reply {
                Ok(AtResponse::Okay) => Ok(MqttStage::Live(mqtt_id)),
                _ => Err(MQTTError::Disconnected),
            },
            MqttStage::Live(_) => Err(MQTTError::ConnectionFailed),
        }
    }

    /// The stage after `disconnect`, given what the engine returned for the
    /// command. Legal from `SessionCreated` and from `Live`.
    pub open spec fn after_disconnect(self, reply: Result<AtResponse, AtError>) -> Result<
        MqttStage,
        MQTTError,
    > {
        match self {
            MqttStage::Disconnected => Err(MQTTError::Disconnected),
            _ => match reply {
                Ok(_) => Ok(MqttStage::Disconnected),
                Err(_) => Err(MQTTError::ConnectionFailed),
            },
        }
    }

    /// The outcome of `publish`, given what the engine returned for the
    /// command. Legal from `Live` only; the stage stays.
    pub open spec fn published(self, reply: Result<AtResponse, AtError>) -> Result<(), MQTTError> {
        match self {
            MqttStage::Live(_) => match reply {
                Ok(_) => Ok(()),
                Err(_) => Err(MQTTError::Publish),
            },
            _ => Err(MQTTError::Disconnected),
        }
    }
}

/// Before any session exists, `connect` is rejected, whatever the engine
/// returned.
pub proof fn lemma_connect_before_create_is_rejected(reply: Result<AtResponse, AtError>)
    ensures
        MqttStage::Disconnected.after_connect(reply) == Err::<MqttStage, MQTTError>(
            MQTTError::Disconnected,
        ),
{
}

/// Before a session is connected, `publish` is rejected, whatever the
/// engine returned: both with no session and with one that was only
/// created.
pub proof fn lemma_publish_before_connect_is_rejected(
    stage: MqttStage,
    reply: Result<AtResponse, AtError>,
)
    requires
        !(stage is Live),
    ensures
        stage.published(reply) == Err::<(), MQTTError>(MQTTError::Disconnected),
{
}

/// A session reaches `Live` only through `create` and then `connect`, and
/// keeps the handle that the module named.
pub proof fn lemma_live_needs_create_then_connect(
    stage: MqttStage,
    reply: Result<AtResponse, AtError>,
)
    ensures
        stage.after_create(reply) is Ok ==> stage is Disconnected && stage.after_create(
            reply,
        ).unwrap() is SessionCreated,
        stage.after_connect(reply) is Ok ==> stage is SessionCreated && stage.after_connect(
            reply,
        ).unwrap() == MqttStage::Live(stage.session().unwrap()),
        stage.after_disconnect(reply) is Ok ==> stage.after_disconnect(reply).unwrap()
            is Disconnected,
{
}

/// The stage marker of a session that does not exist.
#[derive(Debug)]
pub struct StateDisconnected {}

/// The stage marker of a session that the module holds.
#[derive(Debug)]
pub struct StateConnected {
    mqtt_id: u8,
}

/// The stage marker of a session that is connected to its server.
#[derive(Debug)]
pub struct StateConnectedGood {
    mqtt_id: u8,
}

/// A session whose stage is part of its type. A step consumes the session
/// and hands out the one of the next stage.
#[derive(Debug)]
pub struct MQTTSession<S> {
    state: S,
}

/// What the engine returned when it should have acknowledged: the error it
/// failed with, or the error for a reply of another kind.
pub open spec fn acknowledgement_error(reply: Result<AtResponse, AtError>) -> Option<AtError> {
    match reply {
        Ok(AtResponse::Okay) => None,
        Ok(_) => Some(AtError::ErrorReply(0)),
        Err(e) => Some(e),
    }
}

impl Default for MQTTSession<StateDisconnected> {
    fn default() -> Self {
        Self::new()
    }
}

impl MQTTSession<StateDisconnected> {
    /// The stage of the session.
    pub open spec fn stage(&self) -> MqttStage {
        MqttStage::Disconnected
    }

    /// The session that does not exist yet.
    pub fn new() -> (r: MQTTSession<StateDisconnected>)
        ensures
            r.stage() == MqttStage::Disconnected,
    {
        Self { state: StateDisconnected {} }
    }

    /// Completes `create` with what the engine returned for the session
    /// settings: the session that the module named, or the engine's error,
    /// or `ErrorReply(0)` for a reply of another kind.
    pub fn create_session(self, reply: Result<AtResponse, AtError>) -> (r: Result<
        MQTTSession<StateConnected>,
        AtError,
    >)
        ensures
            match reply {
                Ok(AtResponse::MQTTSessionCreated(mqtt_id)) => r is Ok && r.unwrap().id()
                    == mqtt_id,
                Ok(_) => fails_with(r, AtError::ErrorReply(0)),
                Err(e) => fails_with(r, e),
            },
    {
        match reply {
            Ok(AtResponse::MQTTSessionCreated(mqtt_id)) => Ok(
                MQTTSession { state: StateConnected { mqtt_id } },
            ),
            Ok(_response) => Err(AtError::ErrorReply(0)),
            Err(e) => Err(e),
        }
    }
}

impl MQTTSession<StateConnected> {
    /// The handle of the session.
    pub closed spec fn id(&self) -> u8 {
        self.state.mqtt_id
    }

    /// The stage of the session.
    pub open spec fn stage(&self) -> MqttStage {
        MqttStage::SessionCreated(self.id())
    }

    /// The handle of the session.
    pub fn mqtt_id(&self) -> (r: u8)
        ensures
            r == self.id(),
    {
        self.state.mqtt_id
    }

    /// The command that `disconnect` issues.
    pub fn disconnect_command(&self) -> (r: CloseMQTTConnection)
        ensures
            r == (CloseMQTTConnection { mqtt_id: self.id() }),
    {
        CloseMQTTConnection { mqtt_id: self.state.mqtt_id }
    }

    /// Completes `disconnect` with what the engine returned: the session is
    /// gone unless the engine failed.
    pub fn disconnect(&self, reply: Result<AtResponse, AtError>) -> (r: Result<
        MQTTSession<StateDisconnected>,
        AtError,
    >)
        ensures
            match reply {
                Ok(_) => r is Ok,
                Err(e) => fails_with(r, e),
            },
    {
        match reply {
            Ok(_) => Ok(MQTTSession { state: StateDisconnected {} }),
            Err(e) => Err(e),
        }
    }

    /// The command that `connect` issues for `connection_settings`.
    pub fn connect_command<'a>(&self, connection_settings: MQTTConnectionSettings<'a>) -> (r:
        MQTTConnectionSettingsWithID<'a>)
        ensures
            r == connection_settings.for_session(self.id()),
    {
        connection_settings.with_mqtt_id(self.state.mqtt_id)
    }

    /// Completes `connect` with what the engine returned: the same session,
    /// connected, where the module acknowledged; else the engine's error, or
    /// `ErrorReply(0)` for a reply of another kind.
    pub fn connect(self, reply: Result<AtResponse, AtError>) -> (r: Result<
        MQTTSession<StateConnectedGood>,
        AtError,
    >)
        ensures
            match acknowledgement_error(reply) {
                None => r is Ok && r.unwrap().id() == self.id(),
                Some(e) => fails_with(r, e),
            },
    {
        let mqtt_id = self.state.mqtt_id;
        match reply {
            Ok(response) => match response {
                AtResponse::Okay => Ok(MQTTSession { state: StateConnectedGood { mqtt_id } }),
                _ => Err(AtError::ErrorReply(0)),
            },
            Err(e) => Err(e),
        }
    }
}

impl MQTTSession<StateConnectedGood> {
    /// The handle of the session.
    pub closed spec fn id(&self) -> u8 {
        self.state.mqtt_id
    }

    /// The stage of the session.
    pub open spec fn stage(&self) -> MqttStage {
        MqttStage::Live(self.id())
    }

    /// The handle of the session.
    pub fn mqtt_id(&self) -> (r: u8)
        ensures
            r == self.id(),
    {
        self.state.mqtt_id
    }

    /// The command that `disconnect` issues.
    pub fn disconnect_command(&self) -> (r: CloseMQTTConnection)
        ensures
            r == (CloseMQTTConnection { mqtt_id: self.id() }),
    {
        CloseMQTTConnection { mqtt_id: self.state.mqtt_id }
    }

    /// Completes `disconnect` with what the engine returned: the session is
    /// gone unless the engine failed.
    pub fn disconnect(&self, reply: Result<AtResponse, AtError>) -> (r: Result<
        MQTTSession<StateDisconnected>,
        AtError,
    >)
        ensures
            match reply {
                Ok(_) => r is Ok,
                Err(e) => fails_with(r, e),
            },
    {
        match reply {
            Ok(_) => Ok(MQTTSession { state: StateDisconnected {} }),
            Err(e) => Err(e),
        }
    }

    /// The command that `publish` issues for `message`.
    pub fn publish_command<'a>(&self, message: &MQTTMessage<'a>) -> (r: MQTTPublish<'a>)
        ensures
            r == message.in_session(self.id()),
    {
        message.publish_in(self.state.mqtt_id)
    }

    /// Completes `publish` with what the engine returned.
    pub fn publish(&self, reply: Result<AtResponse, AtError>) -> (r: Result<(), MQTTError>)
        ensures
            r == match reply {
                Ok(_) => Ok::<(), MQTTError>(()),
                Err(_) => Err::<(), MQTTError>(MQTTError::Publish),
            },
    {
        match reply {
            Ok(_) => Ok(()),
            Err(_) => Err(MQTTError::Publish),
        }
    }
}

/// A session in one of its three stages.
#[derive(Debug)]
pub enum MQTTSessionWrapper {
    Disconnected(MQTTSession<StateDisconnected>),
    Connected(MQTTSession<StateConnected>),
    ConnectedGood(MQTTSession<StateConnectedGood>),
}

impl MQTTSessionWrapper {
    /// The stage of the session.
    pub open spec fn stage(self) -> MqttStage {
        match self {
            MQTTSessionWrapper::Disconnected(session) => session.stage(),
            MQTTSessionWrapper::Connected(session) => session.stage(),
            MQTTSessionWrapper::ConnectedGood(session) => session.stage(),
        }
    }

    fn create_session(self, reply: Result<AtResponse, AtError>) -> (r: Result<
        MQTTSessionWrapper,
        MQTTError,
    >)
        ensures
            match self.stage().after_create(reply) {
                Ok(stage) => r is Ok && r.unwrap().stage() == stage,
                Err(e) => r is Err && r.unwrap_err() == e,
            },
    {
        match self {
            MQTTSessionWrapper::Disconnected(session) => match session.create_session(reply) {
                Ok(session) => Ok(MQTTSessionWrapper::Connected(session)),
                Err(_e) => Err(MQTTError::Disconnected),
            },
            _ => Err(MQTTError::ConnectionFailed),
        }
    }

    fn connect(self, reply: Result<AtResponse, AtError>) -> (r: Result<
        MQTTSessionWrapper,
        MQTTError,
    >)
        ensures
            match self.stage().after_connect(reply) {
                Ok(stage) => r is Ok && r.unwrap().stage() == stage,
                Err(e) => r is Err && r.unwrap_err() == e,
            },
    {
        match self {
            MQTTSessionWrapper::Disconnected(_) => Err(MQTTError::Disconnected),
            MQTTSessionWrapper::Connected(session) => match session.connect(reply) {
                Ok(session) => Ok(MQTTSessionWrapper::ConnectedGood(session)),
                Err(_e) => Err(MQTTError::Disconnected),
            },
            MQTTSessionWrapper::ConnectedGood(_) => Err(MQTTError::ConnectionFailed),
        }
    }

    fn disconnect(self, reply: Result<AtResponse, AtError>) -> (r: Result<
        MQTTSessionWrapper,
        MQTTError,
    >)
        ensures
            match self.stage().after_disconnect(reply) {
                Ok(stage) => r is Ok && r.unwrap().stage() == stage,
                Err(e) => r is Err && r.unwrap_err() == e,
            },
    {
        match self {
            MQTTSessionWrapper::Disconnected(_) => Err(MQTTError::Disconnected),
            MQTTSessionWrapper::Connected(session) => match session.disconnect(reply) {
                Ok(session) => Ok(MQTTSessionWrapper::Disconnected(session)),
                Err(_e) => Err(MQTTError::ConnectionFailed),
            },
            MQTTSessionWrapper::ConnectedGood(session) => match session.disconnect(reply) {
                Ok(session) => Ok(MQTTSessionWrapper::Disconnected(session)),
                Err(_e) => Err(MQTTError::ConnectionFailed),
            },
        }
    }

    fn publish(&self, reply: Result<AtResponse, AtError>) -> (r: Result<(), MQTTError>)
        ensures
            r == self.stage().published(reply),
    {
        match self {
            MQTTSessionWrapper::Disconnected(_) => Err(MQTTError::Disconnected),
            MQTTSessionWrapper::Connected(_) => Err(MQTTError::Disconnected),
            MQTTSessionWrapper::ConnectedGood(session) => session.publish(reply),
        }
    }
}

/// An MQTT session with its settings. Every step has two halves: the first
/// tells which command the step issues, or rejects the step; the second
/// takes what the engine returned for that command and gives the session in
/// its next stage. A step that fails gives no session back.
#[derive(Debug)]
pub struct Mqtt<'a> {
    session_settings: &'a MQTTSessionSettings<'a>,
    session_wrapper: MQTTSessionWrapper,
}

impl<'a> Mqtt<'a> {
    /// The stage of the session.
    pub closed spec fn stage(&self) -> MqttStage {
        self.session_wrapper.stage()
    }

    /// The settings that the session is created with.
    pub closed spec fn settings(&self) -> &'a MQTTSessionSettings<'a> {
        self.session_settings
    }

    /// A session that does not exist yet.
    pub fn new(session_settings: &'a MQTTSessionSettings<'a>) -> (r: Self)
        ensures
            r.stage() == MqttStage::Disconnected,
            r.settings() == session_settings,
    {
        let session_wrapper = MQTTSessionWrapper::Disconnected(MQTTSession::new());
        Self { session_settings, session_wrapper }
    }

    /// The stage of the session.
    pub fn current_stage(&self) -> (r: MqttStage)
        ensures
            r == self.stage(),
    {
        match &self.session_wrapper {
            MQTTSessionWrapper::Disconnected(_) => MqttStage::Disconnected,
            MQTTSessionWrapper::Connected(session) => MqttStage::SessionCreated(session.mqtt_id()),
            MQTTSessionWrapper::ConnectedGood(session) => MqttStage::Live(session.mqtt_id()),
        }
    }

    /// The command that `create_session` issues: the session's settings.
    /// Rejected unless there is no session.
    pub fn create_session_command(&self) -> (r: Result<&'a MQTTSessionSettings<'a>, MQTTError>)
        ensures
            r == match self.stage() {
                MqttStage::Disconnected => Ok::<&'a MQTTSessionSettings<'a>, MQTTError>(
                    self.settings(),
                ),
                _ => Err::<&'a MQTTSessionSettings<'a>, MQTTError>(MQTTError::ConnectionFailed),
            },
    {
        match &self.session_wrapper {
            MQTTSessionWrapper::Disconnected(_) => Ok(self.session_settings),
            _ => Err(MQTTError::ConnectionFailed),
        }
    }

    /// Completes `create_session` with what the engine returned.
    pub fn create_session(self, reply: Result<AtResponse, AtError>) -> (r: Result<Self, MQTTError>)
        ensures
            match self.stage().after_create(reply) {
                Ok(stage) => r is Ok && r.unwrap().stage() == stage && r.unwrap().settings()
                    == self.settings(),
                Err(e) => r is Err && r.unwrap_err() == e,
            },
    {
        let session_settings = self.session_settings;
        match self.session_wrapper.create_session(reply) {
            Ok(session_wrapper) => Ok(Self { session_settings, session_wrapper }),
            Err(e) => Err(e),
        }
    }

    /// The command that `connect` issues for `connection_settings`.
    /// Rejected unless a session was created and is not connected.
    pub fn connect_command<'b>(&self, connection_settings: MQTTConnectionSettings<'b>) -> (r:
        Result<MQTTConnectionSettingsWithID<'b>, MQTTError>)
        ensures
            r == match self.stage() {
                MqttStage::Disconnected => Err::<MQTTConnectionSettingsWithID<'b>, MQTTError>(
                    MQTTError::Disconnected,
                ),
                MqttStage::SessionCreated(mqtt_id) => Ok::<
                    MQTTConnectionSettingsWithID<'b>,
                    MQTTError,
                >(connection_settings.for_session(mqtt_id)),
                MqttStage::Live(_) => Err::<MQTTConnectionSettingsWithID<'b>, MQTTError>(
                    MQTTError::ConnectionFailed,
                ),
            },
    {
        match &self.session_wrapper {
            MQTTSessionWrapper::Disconnected(_) => Err(MQTTError::Disconnected),
            MQTTSessionWrapper::Connected(session) => Ok(
                session.connect_command(connection_settings),
            ),
            MQTTSessionWrapper::ConnectedGood(_) => Err(MQTTError::ConnectionFailed),
        }
    }

    /// Completes `connect` with what the engine returned.
    pub fn connect(self, reply: Result<AtResponse, AtError>) -> (r: Result<Self, MQTTError>)
        ensures
            match self.stage().after_connect(reply) {
                Ok(stage) => r is Ok && r.unwrap().stage() == stage && r.unwrap().settings()
                    == self.settings(),
                Err(e) => r is Err && r.unwrap_err() == e,
            },
    {
        let session_settings = self.session_settings;
        match self.session_wrapper.connect(reply) {
            Ok(session_wrapper) => Ok(Self { session_settings, session_wrapper }),
            Err(e) => Err(e),
        }
    }

    /// The command that `disconnect` issues. Rejected where there is no
    /// session.
    pub fn disconnect_command(&self) -> (r: Result<CloseMQTTConnection, MQTTError>)
        ensures
            r == match self.stage().session() {
                Some(mqtt_id) => Ok::<CloseMQTTConnection, MQTTError>(
                    CloseMQTTConnection { mqtt_id },
                ),
                None => Err::<CloseMQTTConnection, MQTTError>(MQTTError::Disconnected),
            },
    {
        match &self.session_wrapper {
            MQTTSessionWrapper::Disconnected(_) => Err(MQTTError::Disconnected),
            MQTTSessionWrapper::Connected(session) => Ok(session.disconnect_command()),
            MQTTSessionWrapper::ConnectedGood(session) => Ok(session.disconnect_command()),
        }
    }

    /// Completes `disconnect` with what the engine returned.
    pub fn disconnect(self, reply: Result<AtResponse, AtError>) -> (r: Result<Self, MQTTError>)
        ensures
            match self.stage().after_disconnect(reply) {
                Ok(stage) => r is Ok && r.unwrap().stage() == stage && r.unwrap().settings()
                    == self.settings(),
                Err(e) => r is Err && r.unwrap_err() == e,
            },
    {
        let session_settings = self.session_settings;
        match self.session_wrapper.disconnect(reply) {
            Ok(session_wrapper) => Ok(Self { session_settings, session_wrapper }),
            Err(e) => Err(e),
        }
    }

    /// The command that `publish` issues for `message`. Rejected unless the
    /// session is connected.
    pub fn publish_command<'b>(&self, message: &MQTTMessage<'b>) -> (r: Result<
        MQTTPublish<'b>,
        MQTTError,
    >)
        ensures
            r == match self.stage() {
                MqttStage::Live(mqtt_id) => Ok::<MQTTPublish<'b>, MQTTError>(
                    message.in_session(mqtt_id),
                ),
                _ => Err::<MQTTPublish<'b>, MQTTError>(MQTTError::Disconnected),
            },
    {
        match &self.session_wrapper {
            MQTTSessionWrapper::ConnectedGood(session) => Ok(session.publish_command(message)),
            _ => Err(MQTTError::Disconnected),
        }
    }

    /// Completes `publish` with what the engine returned.
    pub fn publish(&self, reply: Result<AtResponse, AtError>) -> (r: Result<(), MQTTError>)
        ensures
            r == self.stage().published(reply),
    {
        self.session_wrapper.publish(reply)
    }
}

/// A connection by its handle alone.
#[derive(Clone, Copy, Debug, PartialEq, Eq, Structural)]
pub enum MQTTConnection {
    Connected(u8),
    Disconnected,
}

impl MQTTConnection {
    /// The stage that the connection stands for.
    pub open spec fn stage(self) -> MqttStage {
        match self {
            MQTTConnection::Connected(mqtt_id) => MqttStage::Live(mqtt_id),
            MQTTConnection::Disconnected => MqttStage::Disconnected,
        }
    }

    /// The command that `publish` issues for `message`. Rejected unless
    /// connected.
    pub fn publish_command<'b>(&self, message: &MQTTMessage<'b>) -> (r: Result<
        MQTTPublish<'b>,
        MQTTError,
    >)
        ensures
            r == match *self {
                MQTTConnection::Connected(mqtt_id) => Ok::<MQTTPublish<'b>, MQTTError>(
                    message.in_session(mqtt_id),
                ),
                MQTTConnection::Disconnected => Err::<MQTTPublish<'b>, MQTTError>(
                    MQTTError::Disconnected,
                ),
            },
    {
        match self {
            MQTTConnection::Disconnected => Err(MQTTError::Disconnected),
            MQTTConnection::Connected(mqtt_id) => Ok(message.publish_in(*mqtt_id)),
        }
    }

    /// Completes `publish` with what the engine returned.
    pub fn publish(&self, reply: Result<AtResponse, AtError>) -> (r: Result<(), MQTTError>)
        ensures
            r == self.stage().published(reply),
    {
        match self {
            MQTTConnection::Disconnected => Err(MQTTError::Disconnected),
            MQTTConnection::Connected(_) => match reply {
                Ok(_) => Ok(()),
                Err(_) => Err(MQTTError::Publish),
            },
        }
    }
}

} // verus!
