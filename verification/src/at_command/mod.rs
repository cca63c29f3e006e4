//! The commands of the module, each with its encoder and its decoders.

use vstd::prelude::*;
use vstd::string::StringSliceAdditionalSpecFns;
use crate::builder::is_outcome;
use crate::frame::{echo_len, ok_terminator, without_echo};
use crate::wire::{class_holds, in_class, run_end, ByteClass, Cursor};
use crate::AtError;
use crate::{BUFFER_SIZE, CR, LF};
use crate::at_command::at_cgatt::GPRSServiceState;
use crate::at_command::at_cpin::PinStatus;
use crate::at_command::network_registration_status::{
    NetworkRegistrationStatus, UnsolicitedResultCodes,
};
use crate::at_command::battery::BatteryChargeStatus;
use crate::at_command::flow_control::ControlFlowStatus;
use crate::at_command::pdp_context::PDPState;
use crate::at_command::mqtt::UsedState;
use crate::at_command::network_information::{NetworkFormat, NetworkMode, NetworkOperator};
use crate::at_command::power_saving_mode::PowerSavingModeState;
use crate::at_command::sleep_indication::SleepIndication;

pub mod at;
pub mod at_cgatt;
pub mod at_cgmm;
pub mod at_cpin;
pub mod at_creg;
pub mod at_csq;
pub mod ate;
pub mod ati;
pub mod battery;
pub mod ceer;
pub mod cmee;
pub mod at_cstt;
pub mod at_psd;
pub mod csclk;
pub mod flow_control;
pub mod model_identification;
pub mod mqtt;
pub mod pdp_context;
pub mod power_saving_mode;
pub mod sleep_indication;
pub mod socket;
pub mod http;
pub mod ip_address;
pub mod network_information;
pub mod cgcontrdp;
pub mod clock;
pub mod receive;
pub mod network_registration_status;
pub mod ntp;
pub mod wireless;

verus! {

/// The scratch buffer that a command is encoded into.
pub type BufferType = [u8; BUFFER_SIZE];

/// The response of the untyped interface: one variant for each kind
/// of reply.
#[derive(Clone, Copy, Debug, PartialEq, Eq)]
pub enum AtResponse {
    /// A bare acknowledgement.
    Okay,
    ModelIdentifier([u8; 8]),
    NTPTimestamp(i64),
    PacketDomainAttachmentState(GPRSServiceState),
    SignalQuality(i32, i32),
    ReportMobileEquipmentErrorSetting(i32),
    NetworkRegistration(UnsolicitedResultCodes, NetworkRegistrationStatus),
    NetworkRegistrationStatus(UnsolicitedResultCodes, NetworkRegistrationStatus),
    PDPContextDynamicParameters(u8, u8),
    MQTTSessionCreated(u8),
    MQTTSession(u8, UsedState, [u8; 50]),
    HTTPSessionCreated(u8),
    HttpSessions(u8, bool, u8, bool, u8, bool, u8, bool),
    NetworkInformationState(NetworkMode, NetworkFormat, Option<NetworkOperator>),
    LocalIPAddress(i32),
    PDPContext(Option<(PDPState, i32)>),
    SleepIndication(SleepIndication),
    PowerSavingMode(PowerSavingModeState),
    BatteryCharge(BatteryChargeStatus),
    ControlFlow(ControlFlowStatus, ControlFlowStatus),
    SocketCreated(u8),
    SocketConnected,
    PinStatus(PinStatus),
}

/// The contract of a command: how it is written to the wire and how its
/// reply is read. Both are functions of their arguments alone.
pub trait AtRequest {
    /// The typed response of the command.
    type Response;

    /// What encoding this command into a buffer of `capacity` bytes gives:
    /// the command line, or the length counted for it where it does not fit.
    spec fn encoded(&self, capacity: nat) -> Result<Seq<u8>, usize>;

    /// Whether `r` is what the reply `data` decodes to.
    spec fn decoded(&self, data: Seq<u8>, r: Result<Self::Response, AtError>) -> bool;

    /// Whether `r` is what the reply `data` decodes to in the untyped
    /// interface.
    spec fn decoded_untyped(&self, data: Seq<u8>, r: Result<AtResponse, AtError>) -> bool;

    /// Encodes the command into `buffer` and returns the bytes to transmit,
    /// or the length counted for the command where the buffer is too small.
    fn get_command<'a>(&'a self, buffer: &'a mut BufferType) -> (r: Result<&'a [u8], usize>)
        ensures
            is_outcome(r, self.encoded(BUFFER_SIZE as nat)),
    ;

    /// Decodes a reply in the untyped interface.
    fn parse_response(&self, data: &[u8]) -> (r: Result<AtResponse, AtError>)
        ensures
            self.decoded_untyped(data@, r),
    ;

    /// Decodes a reply.
    fn parse_response_struct(&self, data: &[u8]) -> (r: Result<Self::Response, AtError>)
        ensures
            self.decoded(data@, r),
    ;
}

/// What writing a fixed command line gives: the line, whatever the buffer.
pub open spec fn fixed_line(line: Seq<u8>) -> Result<Seq<u8>, usize> {
    Ok(line)
}

/// The length of `s` without the ASCII whitespace at its end.
pub open spec fn trimmed_len(s: Seq<u8>) -> int
    decreases s.len(),
{
    if s.len() > 0 && in_class(ByteClass::Whitespace, s.last()) {
        trimmed_len(s.drop_last())
    } else {
        s.len() as int
    }
}

/// Whether a reply ends in the acknowledgement: with the whitespace at its
/// end left aside, its last line is `OK`. The lines before it are free.
pub open spec fn ends_acknowledged(data: Seq<u8>) -> bool {
    let end = trimmed_len(data);
    &&& end >= 2
    &&& data[end - 2] == 0x4fu8
    &&& data[end - 1] == 0x4bu8
    &&& (end == 2 || data[end - 3] == CR || data[end - 3] == LF)
}

/// Whether `r` is what a reply of which nothing but `value` is kept decodes
/// to: `value` where the reply ends in the acknowledgement, and a parse
/// error where it does not.
pub open spec fn acknowledged_as<T>(data: Seq<u8>, r: Result<T, AtError>, value: T) -> bool {
    r == if ends_acknowledged(data) {
        Ok::<T, AtError>(value)
    } else {
        Err::<T, AtError>(AtError::AtParseError)
    }
}

/// Whether `r` is what a reply of which nothing is kept decodes to: success
/// where the reply ends in the acknowledgement, and a parse error where it
/// does not.
pub open spec fn acknowledged(data: Seq<u8>, r: Result<(), AtError>) -> bool {
    r == if ends_acknowledged(data) {
        Ok::<(), AtError>(())
    } else {
        Err::<(), AtError>(AtError::AtParseError)
    }
}

/// Tells whether a reply ends in the acknowledgement.
pub fn ends_in_acknowledgement(data: &[u8]) -> (r: bool)
    ensures
        r == ends_acknowledged(data@),
{
    let mut end: usize = data.len();
    assert(data@.subrange(0, end as int) =~= data@);
    while end > 0 && class_holds(ByteClass::Whitespace, data[end - 1])
        invariant
            end <= data@.len(),
            trimmed_len(data@) == trimmed_len(data@.subrange(0, end as int)),
        decreases end,
    {
        assert(data@.subrange(0, end as int).drop_last() =~= data@.subrange(0, end - 1));
        end -= 1;
    }
    assert(trimmed_len(data@) == end);
    if end < 2 || data[end - 2] != 0x4f || data[end - 1] != 0x4b {
        return false;
    }
    end == 2 || data[end - 3] == CR || data[end - 3] == LF
}

/// Decodes a reply of which nothing is kept: checks that it ends in the
/// acknowledgement.
pub fn verify_acknowledged(data: &[u8]) -> (r: Result<(), AtError>)
    ensures
        acknowledged(data@, r),
{
    if ends_in_acknowledgement(data) {
        Ok(())
    } else {
        Err(AtError::AtParseError)
    }
}

/// Whether `r` is the bare acknowledgement of the untyped interface.
pub open spec fn acknowledged_untyped(r: Result<AtResponse, AtError>) -> bool {
    r == Ok::<AtResponse, AtError>(AtResponse::Okay)
}

/// Whether `r` is the verdict on a reply that must be a bare `OK`.
pub open spec fn ok_verified(data: Seq<u8>, r: Result<(), AtError>) -> bool {
    r == if is_ok_reply(data) {
        Ok::<(), AtError>(())
    } else {
        Err::<(), AtError>(AtError::AtParseError)
    }
}

/// The handle that a number in a reply stands for: its low eight bits,
/// which is the number itself where a byte holds it.
pub open spec fn handle_of(value: i32) -> u8 {
    value as u8
}

/// Reads a number in a reply as a handle.
pub fn to_handle(value: i32) -> (r: u8)
    ensures
        r == handle_of(value),
        0 <= value <= 255 ==> r == value,
{
    #[verifier::truncate]
    (value as u8)
}

/// Whether `r` is the verdict of the untyped interface on a reply that must
/// be a bare `OK`.
pub open spec fn ok_verified_untyped(data: Seq<u8>, r: Result<AtResponse, AtError>) -> bool {
    r == if is_ok_reply(data) {
        Ok::<AtResponse, AtError>(AtResponse::Okay)
    } else {
        Err::<AtResponse, AtError>(AtError::AtParseError)
    }
}

/// Checks in the untyped interface that a reply is a bare acknowledgement.
pub fn verify_ok_untyped(data: &[u8]) -> (r: Result<AtResponse, AtError>)
    ensures
        ok_verified_untyped(data@, r),
{
    match verify_ok(data) {
        Ok(_) => Ok(AtResponse::Okay),
        Err(e) => Err(e),
    }
}

/// The largest number of bytes that one command can be asked to carry.
pub const MAX_MESSAGE_SIZE: usize = 0x3fff_ffff;

/// The number that the module reads a flag as: 1 for set, 0 for clear.
pub open spec fn flag_of(set: bool) -> int {
    if set {
        1
    } else {
        0
    }
}

/// The number that the module reads a flag as.
pub fn flag(set: bool) -> (r: i32)
    ensures
        r == flag_of(set),
{
    if set {
        1
    } else {
        0
    }
}

/// Whether `r` is the failure `e`.
pub open spec fn fails_with<T>(r: Result<T, AtError>, e: AtError) -> bool {
    match r {
        Ok(_) => false,
        Err(x) => x == e,
    }
}

/// The integer of a reply made of `prefix`, one integer field and `suffix`.
pub open spec fn int_reply(data: Seq<u8>, prefix: Seq<u8>, suffix: Seq<u8>) -> Result<
    i32,
    AtError,
> {
    let field = Cursor::start().after_identifier(data, prefix).after_integer(data);
    if field.0.after_identifier(data, suffix).valid {
        Ok(field.1)
    } else {
        Err(AtError::AtParseError)
    }
}

/// Decodes a reply made of `prefix`, one integer field and `suffix`.
pub fn parse_int_reply(data: &[u8], prefix: &str, suffix: &str) -> (r: Result<i32, AtError>)
    ensures
        r == int_reply(data@, prefix.spec_bytes(), suffix.spec_bytes()),
{
    let (cursor, value) = Cursor::new().identifier(data, prefix.as_bytes()).integer(data);
    if cursor.identifier(data, suffix.as_bytes()).valid {
        Ok(value)
    } else {
        Err(AtError::AtParseError)
    }
}

/// The integers of a reply made of `prefix`, two integer fields and
/// `suffix`.
pub open spec fn int_pair_reply(data: Seq<u8>, prefix: Seq<u8>, suffix: Seq<u8>) -> Result<
    (i32, i32),
    AtError,
> {
    let first = Cursor::start().after_identifier(data, prefix).after_integer(data);
    let second = first.0.after_integer(data);
    if second.0.after_identifier(data, suffix).valid {
        Ok((first.1, second.1))
    } else {
        Err(AtError::AtParseError)
    }
}

/// Decodes a reply made of `prefix`, two integer fields and `suffix`.
pub fn parse_int_pair_reply(data: &[u8], prefix: &str, suffix: &str) -> (r: Result<
    (i32, i32),
    AtError,
>)
    ensures
        r == int_pair_reply(data@, prefix.spec_bytes(), suffix.spec_bytes()),
{
    let (cursor, first) = Cursor::new().identifier(data, prefix.as_bytes()).integer(data);
    let (cursor, second) = cursor.integer(data);
    if cursor.identifier(data, suffix.as_bytes()).valid {
        Ok((first, second))
    } else {
        Err(AtError::AtParseError)
    }
}

/// The text of a reply made of `prefix`, a line of text and `suffix`.
pub open spec fn text_reply(data: Seq<u8>, prefix: Seq<u8>, suffix: Seq<u8>) -> Result<
    Seq<u8>,
    AtError,
> {
    let field = Cursor::start().after_identifier(data, prefix).after_text(data);
    if field.0.after_identifier(data, suffix).valid {
        Ok(field.1)
    } else {
        Err(AtError::AtParseError)
    }
}

/// Decodes a reply made of `prefix`, a line of text and `suffix`.
pub fn parse_text_reply<'a>(data: &'a [u8], prefix: &str, suffix: &str) -> (r: Result<
    &'a str,
    AtError,
>)
    ensures
        match text_reply(data@, prefix.spec_bytes(), suffix.spec_bytes()) {
            Ok(text) => r is Ok && r.unwrap().spec_bytes() == text,
            Err(e) => r == Err::<&str, AtError>(e),
        },
{
    let (cursor, text) = Cursor::new().identifier(data, prefix.as_bytes()).text(data);
    if cursor.identifier(data, suffix.as_bytes()).valid {
        Ok(text)
    } else {
        Err(AtError::AtParseError)
    }
}

/// Whether a reply is a bare acknowledgement: `OK`, with any whitespace
/// before it.
pub open spec fn is_ok_reply(data: Seq<u8>) -> bool {
    Cursor::start().after_whitespace(data).after_identifier(data, "OK".spec_bytes()).valid
}

/// Checks that a reply is a bare acknowledgement.
pub fn verify_ok(data: &[u8]) -> (r: Result<(), AtError>)
    ensures
        r == if is_ok_reply(data@) {
            Ok::<(), AtError>(())
        } else {
            Err::<(), AtError>(AtError::AtParseError)
        },
{
    if Cursor::new().whitespace(data).identifier(data, "OK".as_bytes()).valid {
        Ok(())
    } else {
        Err(AtError::AtParseError)
    }
}

/// Encoding is deterministic: two results of encoding one command are the
/// same bytes, or the same length where the command does not fit.
pub proof fn lemma_encoding_is_deterministic<V: AtRequest>(
    command: &V,
    first: Result<&[u8], usize>,
    second: Result<&[u8], usize>,
)
    requires
        is_outcome(first, command.encoded(BUFFER_SIZE as nat)),
        is_outcome(second, command.encoded(BUFFER_SIZE as nat)),
    ensures
        first is Ok == second is Ok,
        first is Ok ==> first.unwrap()@ == second.unwrap()@,
        first is Err ==> first.unwrap_err() == second.unwrap_err(),
{
}

proof fn lemma_run_end_at_most(s: Seq<u8>, from: int, class: ByteClass, stop: int)
    requires
        0 <= from <= stop < s.len(),
        !in_class(class, s[stop]),
    ensures
        run_end(s, from, class) <= stop,
    decreases stop - from,
{
    if from < stop && in_class(class, s[from]) {
        lemma_run_end_at_most(s, from + 1, class, stop);
    }
}

proof fn lemma_run_end_at_least(s: Seq<u8>, from: int, class: ByteClass)
    ensures
        run_end(s, from, class) >= from,
    decreases s.len() - from,
{
    if 0 <= from < s.len() && in_class(class, s[from]) {
        lemma_run_end_at_least(s, from + 1, class);
    }
}

proof fn lemma_tail_is_acknowledged(w: Seq<u8>)
    requires
        w.len() >= 5,
        w[w.len() - 5] == LF,
        w[w.len() - 4] == 0x4fu8,
        w[w.len() - 3] == 0x4bu8,
        w[w.len() - 2] == CR,
        w[w.len() - 1] == LF,
    ensures
        ends_acknowledged(w),
{
    let shorter = w.drop_last();
    let shortest = shorter.drop_last();
    assert(shorter.last() == CR);
    assert(shortest.last() == 0x4bu8);
    assert(trimmed_len(shortest) == shortest.len());
    assert(trimmed_len(shorter) == trimmed_len(shortest));
    assert(trimmed_len(w) == trimmed_len(shorter));
}

/// A reply that was framed ends in the acknowledgement: whatever content
/// stands before the success terminator, the content with the terminator is
/// acknowledged, and so is what is left of it without the echoed command.
pub proof fn lemma_framed_reply_is_acknowledged(content: Seq<u8>)
    ensures
        ends_acknowledged(content + ok_terminator()),
        ends_acknowledged(without_echo(content + ok_terminator())),
{
    let reply = content + ok_terminator();
    let length = reply.len() as int;
    assert(reply[length - 6] == ok_terminator()[0]);
    assert(reply[length - 5] == ok_terminator()[1]);
    assert(reply[length - 4] == ok_terminator()[2]);
    assert(reply[length - 3] == ok_terminator()[3]);
    assert(reply[length - 2] == ok_terminator()[4]);
    assert(reply[length - 1] == ok_terminator()[5]);
    lemma_tail_is_acknowledged(reply);
    lemma_run_end_at_most(reply, 0, ByteClass::SameLine, length - 6);
    lemma_run_end_at_least(reply, 0, ByteClass::SameLine);
    let echo = echo_len(reply);
    assert(0 <= echo <= length - 5);
    let rest = without_echo(reply);
    assert(rest.len() == length - echo);
    assert(rest[rest.len() - 5] == reply[length - 5]);
    assert(rest[rest.len() - 4] == reply[length - 4]);
    assert(rest[rest.len() - 3] == reply[length - 3]);
    assert(rest[rest.len() - 2] == reply[length - 2]);
    assert(rest[rest.len() - 1] == reply[length - 1]);
    lemma_tail_is_acknowledged(rest);
}

} // verus!
