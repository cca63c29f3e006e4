//! The session engine: one command at a time over one serial line.
//!
//! The engine owns the state of the exchange and the read buffer; its
//! caller owns the line. To execute a command the caller asks the engine
//! for the bytes to transmit, reports whether they were written, hands over
//! what it reads until the engine has a whole reply, and lets the engine
//! decode it. The engine refuses every step that is out of turn, so no
//! second command and no unsolicited message can come between a command
//! and its reply.

use vstd::prelude::*;
use crate::at_command::at::At;
use crate::at_command::at_cpin::{EnterPIN, PINRequired, PinStatus};
use crate::at_command::ate::{AtEcho, Echo};
use crate::at_command::cmee::{ReportMobileEquipmentErrorSetting, SetReportMobileEquipmentError};
use crate::at_command::csclk::{CSCLKMode, SetCSCLKMode};
use crate::at_command::flow_control::{ControlFlowStatus, GetFlowControl, SetFlowControl};
use crate::at_command::receive::UnsolicitedMessage;
use crate::at_command::{fails_with, AtRequest, AtResponse, BufferType};
use crate::frame::{
    is_verdict, kept_len, skip_echo, without_echo, FrameReader, FrameStatus, TERMINATOR_LEN,
};
use crate::AtError;
use crate::BUFFER_SIZE;

verus! {

/// Where the engine stands in an exchange.
#[derive(Clone, Copy, Debug, PartialEq, Eq, Structural)]
pub enum Phase {
    /// No command is in flight.
    Idle,
    /// A command was encoded and is being written.
    Sending,
    /// The command was written and its reply is being read.
    Receiving,
    /// The reply is complete and waits to be decoded.
    Replied,
}

/// How a read of the transport failed.
#[derive(Clone, Copy, Debug, PartialEq, Eq, Structural)]
pub enum ReadFault {
    /// The read was interrupted.
    Interrupted,
    /// The read timed out.
    TimedOut,
    /// Any other failure.
    Other,
}

impl ReadFault {
    /// Whether a read that failed this way may succeed when it is tried
    /// again: an interrupted read and a timeout are transient, every other
    /// failure is terminal.
    pub open spec fn is_transient(self) -> bool {
        self == ReadFault::Interrupted || self == ReadFault::TimedOut
    }

    /// Tells whether a read that failed this way is worth another try.
    pub fn transient(self) -> (r: bool)
        ensures
            r == self.is_transient(),
    {
        match self {
            ReadFault::Interrupted => true,
            ReadFault::TimedOut => true,
            ReadFault::Other => false,
        }
    }
}

/// What the caller does next while a reply is read.
#[derive(Clone, Copy, Debug, PartialEq, Eq, Structural)]
pub enum ReadStep {
    /// Read again.
    More,
    /// The reply is complete: decode it.
    Complete,
    /// The exchange failed.
    Failed(AtError),
}

/// How many transient read failures in a row the engine puts up with.
pub const MAX_READ_RETRIES: usize = 16;

/// The time, in milliseconds, that the module is given to start after its
/// power line was asserted.
pub const AWAIT_TIME_FOR_POWER_UP: u32 = 1000 * 10;

/// What the caller does next for the verdict `status` on the reply read so
/// far.
pub open spec fn read_step_of(status: FrameStatus) -> ReadStep {
    match status {
        FrameStatus::Reading => ReadStep::More,
        FrameStatus::Success(_) => ReadStep::Complete,
        FrameStatus::Failure(consumed) => ReadStep::Failed(AtError::ErrorReply(consumed)),
        FrameStatus::Overflow => ReadStep::Failed(AtError::CapacityError),
    }
}

/// The phase that follows `Receiving` for the verdict `status`.
pub open spec fn phase_after(status: FrameStatus) -> Phase {
    match status {
        FrameStatus::Reading => Phase::Receiving,
        FrameStatus::Success(_) => Phase::Replied,
        _ => Phase::Idle,
    }
}

/// What the caller does to wake the module or to send it to sleep.
#[derive(Clone, Copy, Debug, PartialEq, Eq, Structural)]
pub enum WakeAction {
    /// Nothing: the module does not sleep.
    Nothing,
    /// Transmit the bare probe twice.
    SendProbes,
    /// De-assert the wake line.
    LowerWakeLine,
    /// Assert the wake line.
    RaiseWakeLine,
}

/// The session engine.
pub struct Modem {
    sleep_mode: CSCLKMode,
    phase: Phase,
    reader: FrameReader,
    retries_left: usize,
}

impl Modem {
    /// The invariant of the engine.
    pub closed spec fn wf(&self) -> bool {
        &&& self.reader.wf()
        &&& self.retries_left <= MAX_READ_RETRIES
        &&& self.phase == Phase::Receiving ==> self.reader.status_spec() == FrameStatus::Reading
        &&& self.phase == Phase::Replied ==> self.reader.status_spec() is Success
    }

    /// Where the engine stands in an exchange.
    pub closed spec fn phase(&self) -> Phase {
        self.phase
    }

    /// The sleep mode that was last set.
    pub closed spec fn sleep_mode(&self) -> CSCLKMode {
        self.sleep_mode
    }

    /// The bytes that were read for the reply so far.
    pub closed spec fn received(&self) -> Seq<u8> {
        self.reader.stream()
    }

    /// The verdict of the frame reader on the bytes read so far.
    pub closed spec fn frame_status(&self) -> FrameStatus {
        self.reader.status_spec()
    }

    /// The reply in the read buffer: once it is complete, the bytes that
    /// were read up to the end of the terminator.
    pub closed spec fn reply(&self) -> Seq<u8> {
        self.reader.held()
    }

    /// How many more transient read failures in a row are put up with.
    pub closed spec fn retries_left(&self) -> nat {
        self.retries_left as nat
    }

    /// A bound on the number of reads that the reply in flight still takes:
    /// each read either brings a byte towards a full buffer or uses up a
    /// retry. It is 0 while no reply is read.
    pub closed spec fn steps_left(&self) -> nat {
        if self.phase == Phase::Receiving {
            ((BUFFER_SIZE + 1 - self.reader.stream().len()) * (MAX_READ_RETRIES + 1)
                + self.retries_left) as nat
        } else {
            0
        }
    }

    /// Reading a reply ends: the reads that a reply takes are bounded by the
    /// size of the buffer and the number of retries.
    pub proof fn lemma_reads_are_bounded(&self)
        requires
            self.wf(),
        ensures
            self.steps_left() <= (BUFFER_SIZE + 2) * (MAX_READ_RETRIES + 1),
            self.phase() != Phase::Receiving ==> self.steps_left() == 0,
    {
        self.reader.lemma_wf();
    }

    /// Gives up the exchange in flight, whatever its phase: the engine is
    /// idle again. What is still to come on the line for the abandoned
    /// command is for the caller to drain.
    pub fn abandon(&mut self)
        requires
            old(self).wf(),
        ensures
            final(self).wf(),
            final(self).phase() == Phase::Idle,
            final(self).sleep_mode() == old(self).sleep_mode(),
    {
        self.phase = Phase::Idle;
    }

    /// A complete reply is the bytes that were read, from the first up to
    /// the end of the success terminator.
    pub proof fn lemma_reply(&self)
        requires
            self.wf(),
            self.phase() == Phase::Replied,
        ensures
            self.frame_status() is Success,
            is_verdict(self.received(), BUFFER_SIZE as nat, self.frame_status()),
            self.reply() == self.received().subrange(
                0,
                self.frame_status()->Success_0 + TERMINATOR_LEN,
            ),
    {
        self.reader.lemma_wf();
    }

    /// An engine with no command in flight, nothing read, and the sleep mode disabled.
    pub fn new() -> (r: Modem)
        ensures
            r.wf() && r.phase() == Phase::Idle && r.sleep_mode() == CSCLKMode::Disabled,
            r.received() == Seq::<u8>::empty() && r.reply() == Seq::<u8>::empty(),
            r.frame_status() == FrameStatus::Reading && r.retries_left() == MAX_READ_RETRIES,
    {
        Modem {
            sleep_mode: CSCLKMode::Disabled,
            phase: Phase::Idle,
            reader: FrameReader::new(),
            retries_left: MAX_READ_RETRIES,
        }
    }

    /// The bytes in the read buffer, for diagnostics: after a failure
    /// reply, the reply up to the end of its terminator; after an overflow,
    /// the full buffer.
    pub fn raw_reply(&self) -> (r: &[u8])
        ensures
            r@ == self.reply(),
    {
        self.reader.bytes()
    }

    /// Where the engine stands in an exchange.
    pub fn current_phase(&self) -> (r: Phase)
        ensures
            r == self.phase(),
    {
        self.phase
    }

    /// The sleep mode that was last set.
    pub fn current_sleep_mode(&self) -> (r: CSCLKMode)
        ensures
            r == self.sleep_mode(),
    {
        self.sleep_mode
    }

    /// Starts an exchange: encodes `payload` into `scratch` and returns the
    /// bytes to transmit. Refused while another command is in flight. A
    /// command that does not fit the scratch buffer is a capacity error.
    pub fn start_command<'a, V: AtRequest>(
        &mut self,
        payload: &'a V,
        scratch: &'a mut BufferType,
    ) -> (r: Result<&'a [u8], AtError>)
        requires
            old(self).wf(),
        ensures
            final(self).wf(),
            final(self).sleep_mode() == old(self).sleep_mode(),
            match r {
                Ok(bytes) => {
                    &&& old(self).phase() == Phase::Idle
                    &&& payload.encoded(BUFFER_SIZE as nat) == Ok::<Seq<u8>, usize>(bytes@)
                    &&& final(self).phase() == Phase::Sending
                },
                Err(e) => {
                    &&& final(self).phase() == old(self).phase()
                    &&& if old(self).phase() != Phase::Idle {
                        e == AtError::IllegalModuleState
                    } else {
                        payload.encoded(BUFFER_SIZE as nat) is Err && e == AtError::CapacityError
                    }
                },
            },
    {
        if self.phase != Phase::Idle {
            return Err(AtError::IllegalModuleState);
        }
        match payload.get_command(scratch) {
            Ok(bytes) => {
                self.phase = Phase::Sending;
                Ok(bytes)
            },
            Err(_) => Err(AtError::CapacityError),
        }
    }

    /// Takes note of whether the command was written and flushed. From then
    /// on the reply is read; a failed write ends the exchange with an I/O
    /// error.
    pub fn command_written(&mut self, flushed: bool) -> (r: Result<(), AtError>)
        requires
            old(self).wf(),
        ensures
            final(self).wf(),
            final(self).sleep_mode() == old(self).sleep_mode(),
            r == if old(self).phase() != Phase::Sending {
                Err::<(), AtError>(AtError::IllegalModuleState)
            } else if flushed {
                Ok::<(), AtError>(())
            } else {
                Err::<(), AtError>(AtError::IOError)
            },
            final(self).phase() == if old(self).phase() != Phase::Sending {
                old(self).phase()
            } else if flushed {
                Phase::Receiving
            } else {
                Phase::Idle
            },
            r is Ok ==> final(self).received() == Seq::<u8>::empty() && final(self).retries_left()
                == MAX_READ_RETRIES,
    {
        if self.phase != Phase::Sending {
            return Err(AtError::IllegalModuleState);
        }
        if !flushed {
            self.phase = Phase::Idle;
            return Err(AtError::IOError);
        }
        self.reader = FrameReader::new();
        self.retries_left = MAX_READ_RETRIES;
        self.phase = Phase::Receiving;
        Ok(())
    }

    /// Takes the bytes of one read. The frame reader's verdict on all bytes
    /// read so far decides: read on, decode the complete reply, or fail
    /// with the remote failure and the bytes consumed, or with a capacity
    /// error where the buffer is full. A read that brought nothing counts
    /// as one that is to be tried again, `MAX_READ_RETRIES` times in a row
    /// at most.
    pub fn reply_bytes(&mut self, chunk: &[u8]) -> (r: ReadStep)
        requires
            old(self).wf(),
        ensures
            final(self).wf(),
            final(self).sleep_mode() == old(self).sleep_mode(),
            old(self).phase() != Phase::Receiving ==> r == ReadStep::Failed(
                AtError::IllegalModuleState,
            ) && final(self).phase() == old(self).phase() && final(self).received() == old(
                self
            ).received() && final(self).reply() == old(self).reply(),
            old(self).phase() == Phase::Receiving ==> {
                &&& final(self).received() == old(self).received() + chunk@
                &&& is_verdict(
                    final(self).received(),
                    BUFFER_SIZE as nat,
                    final(self).frame_status(),
                )
                &&& final(self).reply() == final(self).received().subrange(
                    0,
                    kept_len(
                        final(self).received(),
                        BUFFER_SIZE as nat,
                        final(self).frame_status(),
                    ),
                )
            },
            old(self).phase() == Phase::Receiving && chunk@.len() > 0 ==> {
                &&& r == read_step_of(final(self).frame_status())
                &&& final(self).phase() == phase_after(final(self).frame_status())
                &&& final(self).retries_left() == MAX_READ_RETRIES
            },
            old(self).phase() == Phase::Receiving && chunk@.len() == 0 ==> {
                &&& final(self).frame_status() == FrameStatus::Reading
                &&& r == if old(self).retries_left() > 0 {
                    ReadStep::More
                } else {
                    ReadStep::Failed(AtError::NotReady)
                }
                &&& final(self).phase() == if old(self).retries_left() > 0 {
                    Phase::Receiving
                } else {
                    Phase::Idle
                }
                &&& r == ReadStep::More ==> final(self).retries_left() == old(
                    self
                ).retries_left() - 1
            },
            r == ReadStep::More ==> final(self).steps_left() < old(self).steps_left(),
            r != ReadStep::More ==> final(self).phase() != Phase::Receiving,
    {
        if self.phase != Phase::Receiving {
            return ReadStep::Failed(AtError::IllegalModuleState);
        }
        proof {
            self.reader.lemma_wf();
        }
        if chunk.len() == 0 {
            assert(self.reader.stream() + chunk@ =~= self.reader.stream());
            if self.retries_left > 0 {
                self.retries_left = self.retries_left - 1;
                return ReadStep::More;
            }
            self.phase = Phase::Idle;
            return ReadStep::Failed(AtError::NotReady);
        }
        let status = self.reader.feed(chunk);
        proof {
            self.reader.lemma_wf();
        }
        self.retries_left = MAX_READ_RETRIES;
        match status {
            FrameStatus::Reading => ReadStep::More,
            FrameStatus::Success(_) => {
                self.phase = Phase::Replied;
                ReadStep::Complete
            },
            FrameStatus::Failure(consumed) => {
                self.phase = Phase::Idle;
                ReadStep::Failed(AtError::ErrorReply(consumed))
            },
            FrameStatus::Overflow => {
                self.phase = Phase::Idle;
                ReadStep::Failed(AtError::CapacityError)
            },
        }
    }

    /// Takes note of a failed read. A transient failure is retried, up to
    /// `MAX_READ_RETRIES` times in a row; a terminal one, and the one after
    /// the last retry, end the exchange with `NotReady`.
    pub fn read_failed(&mut self, fault: ReadFault) -> (r: ReadStep)
        requires
            old(self).wf(),
        ensures
            final(self).wf(),
            final(self).sleep_mode() == old(self).sleep_mode(),
            final(self).received() == old(self).received(),
            final(self).frame_status() == old(self).frame_status(),
            r == if old(self).phase() != Phase::Receiving {
                ReadStep::Failed(AtError::IllegalModuleState)
            } else if fault.is_transient() && old(self).retries_left() > 0 {
                ReadStep::More
            } else {
                ReadStep::Failed(AtError::NotReady)
            },
            final(self).phase() == if old(self).phase() != Phase::Receiving {
                old(self).phase()
            } else if r == ReadStep::More {
                Phase::Receiving
            } else {
                Phase::Idle
            },
            r == ReadStep::More ==> final(self).retries_left() == old(self).retries_left() - 1,
            r == ReadStep::More ==> final(self).steps_left() < old(self).steps_left(),
    {
        if self.phase != Phase::Receiving {
            return ReadStep::Failed(AtError::IllegalModuleState);
        }
        proof {
            self.reader.lemma_wf();
        }
        if fault.transient() && self.retries_left > 0 {
            self.retries_left = self.retries_left - 1;
            return ReadStep::More;
        }
        self.phase = Phase::Idle;
        ReadStep::Failed(AtError::NotReady)
    }

    /// Ends an exchange: decodes the complete reply, terminator included
    /// and without the echoed command that may lead it, as the response of
    /// `payload`. What the decoder returns is returned as it is.
    pub fn finish_command<V: AtRequest>(&mut self, payload: &V) -> (r: Result<
        V::Response,
        AtError,
    >)
        requires
            old(self).wf(),
        ensures
            final(self).wf(),
            final(self).sleep_mode() == old(self).sleep_mode(),
            final(self).received() == old(self).received(),
            final(self).frame_status() == old(self).frame_status(),
            old(self).phase() == Phase::Replied ==> payload.decoded(
                without_echo(old(self).reply()),
                r,
            )
                && final(self).phase() == Phase::Idle,
            old(self).phase() != Phase::Replied ==> fails_with(r, AtError::IllegalModuleState)
                && final(self).phase() == old(self).phase(),
    {
        if self.phase != Phase::Replied {
            return Err(AtError::IllegalModuleState);
        }
        self.phase = Phase::Idle;
        payload.parse_response_struct(skip_echo(self.reader.bytes()))
    }

    /// Ends an exchange in the untyped interface: decodes the complete
    /// reply, terminator included and without the echoed command that may
    /// lead it. A reply that does not decode is an error like any other.
    pub fn finish_reply<V: AtRequest>(&mut self, payload: &V) -> (r: Result<AtResponse, AtError>)
        requires
            old(self).wf(),
        ensures
            final(self).wf(),
            final(self).sleep_mode() == old(self).sleep_mode(),
            final(self).received() == old(self).received(),
            final(self).frame_status() == old(self).frame_status(),
            old(self).phase() == Phase::Replied ==> payload.decoded_untyped(
                without_echo(old(self).reply()),
                r,
            )
                && final(self).phase() == Phase::Idle,
            old(self).phase() != Phase::Replied ==> fails_with(r, AtError::IllegalModuleState)
                && final(self).phase() == old(self).phase(),
    {
        if self.phase != Phase::Replied {
            return Err(AtError::IllegalModuleState);
        }
        self.phase = Phase::Idle;
        payload.parse_response(skip_echo(self.reader.bytes()))
    }

    /// Starts to read a reply for which no command is sent now, such as
    /// one that the module still owes. Refused while a command is in flight.
    pub fn expect_reply(&mut self) -> (r: Result<(), AtError>)
        requires
            old(self).wf(),
        ensures
            final(self).wf(),
            final(self).sleep_mode() == old(self).sleep_mode(),
            r is Ok <==> old(self).phase() == Phase::Idle,
            r is Err ==> r == Err::<(), AtError>(AtError::IllegalModuleState) && final(
                self
            ).phase() == old(self).phase(),
            r is Ok ==> final(self).phase() == Phase::Receiving && final(self).received()
                == Seq::<u8>::empty() && final(self).retries_left() == MAX_READ_RETRIES,
    {
        if self.phase != Phase::Idle {
            return Err(AtError::IllegalModuleState);
        }
        self.reader = FrameReader::new();
        self.retries_left = MAX_READ_RETRIES;
        self.phase = Phase::Receiving;
        Ok(())
    }

    /// Ends an exchange without decoding: copies the complete reply,
    /// terminator included, to the start of `response_out` and returns the
    /// length of the content before the terminator.
    pub fn finish_raw(&mut self, response_out: &mut BufferType) -> (r: Result<usize, AtError>)
        requires
            old(self).wf(),
        ensures
            final(self).wf(),
            final(self).sleep_mode() == old(self).sleep_mode(),
            final(self).received() == old(self).received(),
            final(self).frame_status() == old(self).frame_status(),
            match r {
                Ok(content) => {
                    &&& old(self).phase() == Phase::Replied
                    &&& final(self).phase() == Phase::Idle
                    &&& old(self).frame_status() == FrameStatus::Success(content)
                    &&& content + TERMINATOR_LEN == old(self).reply().len()
                    &&& final(response_out)@.subrange(0, content + TERMINATOR_LEN) == old(
                        self
                    ).reply()
                },
                Err(e) => {
                    &&& old(self).phase() != Phase::Replied
                    &&& e == AtError::IllegalModuleState
                    &&& final(self).phase() == old(self).phase()
                    &&& final(response_out)@ == old(response_out)@
                },
            },
    {
        if self.phase != Phase::Replied {
            return Err(AtError::IllegalModuleState);
        }
        proof {
            self.reader.lemma_wf();
        }
        let content = match self.reader.status() {
            FrameStatus::Success(content) => content,
            _ => 0,
        };
        let reply = self.reader.bytes();
        let mut k: usize = 0;
        while k < reply.len()
            invariant
                k <= reply@.len() <= BUFFER_SIZE,
                response_out@.len() == BUFFER_SIZE,
                forall|i: int| 0 <= i < k ==> response_out@[i] == reply@[i],
            decreases reply@.len() - k,
        {
            response_out[k] = reply[k];
            k += 1;
        }
        assert(response_out@.subrange(0, k as int) =~= reply@);
        self.phase = Phase::Idle;
        Ok(content)
    }

    /// Runs a whole exchange on a transport that writes without fault and
    /// then delivers `incoming` in one read: the command is encoded, the
    /// reply is framed, and the response is decoded. Returns the bytes that
    /// were transmitted with the outcome.
    pub fn send_and_wait_response<'a, V: AtRequest>(
        &mut self,
        payload: &'a V,
        scratch: &'a mut BufferType,
        incoming: &[u8],
    ) -> (r: Result<(&'a [u8], Result<V::Response, AtError>), AtError>)
        requires
            old(self).wf(),
        ensures
            final(self).wf(),
            final(self).sleep_mode() == old(self).sleep_mode(),
            match r {
                Ok((sent, outcome)) => {
                    &&& old(self).phase() == Phase::Idle
                    &&& payload.encoded(BUFFER_SIZE as nat) == Ok::<Seq<u8>, usize>(sent@)
                    &&& final(self).received() == incoming@
                    &&& is_verdict(incoming@, BUFFER_SIZE as nat, final(self).frame_status())
                    &&& match final(self).frame_status() {
                        FrameStatus::Reading => fails_with(outcome, AtError::NotReady),
                        FrameStatus::Success(content) => payload.decoded(
                            without_echo(incoming@.subrange(0, content + TERMINATOR_LEN)),
                            outcome,
                        ),
                        FrameStatus::Failure(consumed) => fails_with(
                            outcome,
                            AtError::ErrorReply(consumed),
                        ),
                        FrameStatus::Overflow => fails_with(outcome, AtError::CapacityError),
                    }
                    &&& final(self).phase() == Phase::Idle
                },
                Err(e) => {
                    &&& final(self).phase() == old(self).phase()
                    &&& if old(self).phase() != Phase::Idle {
                        e == AtError::IllegalModuleState
                    } else {
                        payload.encoded(BUFFER_SIZE as nat) is Err && e == AtError::CapacityError
                    }
                },
            },
    {
        let sent = self.start_command(payload, scratch)?;
        let written = self.command_written(true);
        assert(written is Ok);
        assert(Seq::<u8>::empty() + incoming@ =~= incoming@);
        let outcome = match self.reply_bytes(incoming) {
            ReadStep::More => {
                let step = self.read_failed(ReadFault::Other);
                Err(AtError::NotReady)
            },
            ReadStep::Complete => {
                proof {
                    self.lemma_reply();
                }
                self.finish_command(payload)
            },
            ReadStep::Failed(e) => Err(e),
        };
        Ok((sent, outcome))
    }

    /// Runs a whole exchange in the untyped interface, on a transport that
    /// writes without fault and then delivers `incoming` in one read.
    /// Returns the bytes that were transmitted with the outcome.
    pub fn send_and_wait_reply<'a, V: AtRequest>(
        &mut self,
        payload: &'a V,
        scratch: &'a mut BufferType,
        incoming: &[u8],
    ) -> (r: Result<(&'a [u8], Result<AtResponse, AtError>), AtError>)
        requires
            old(self).wf(),
        ensures
            final(self).wf(),
            final(self).sleep_mode() == old(self).sleep_mode(),
            match r {
                Ok((sent, outcome)) => {
                    &&& old(self).phase() == Phase::Idle
                    &&& payload.encoded(BUFFER_SIZE as nat) == Ok::<Seq<u8>, usize>(sent@)
                    &&& final(self).received() == incoming@
                    &&& is_verdict(incoming@, BUFFER_SIZE as nat, final(self).frame_status())
                    &&& match final(self).frame_status() {
                        FrameStatus::Reading => fails_with(outcome, AtError::NotReady),
                        FrameStatus::Success(content) => payload.decoded_untyped(
                            without_echo(incoming@.subrange(0, content + TERMINATOR_LEN)),
                            outcome,
                        ),
                        FrameStatus::Failure(consumed) => fails_with(
                            outcome,
                            AtError::ErrorReply(consumed),
                        ),
                        FrameStatus::Overflow => fails_with(outcome, AtError::CapacityError),
                    }
                    &&& final(self).phase() == Phase::Idle
                },
                Err(e) => {
                    &&& final(self).phase() == old(self).phase()
                    &&& if old(self).phase() != Phase::Idle {
                        e == AtError::IllegalModuleState
                    } else {
                        payload.encoded(BUFFER_SIZE as nat) is Err && e == AtError::CapacityError
                    }
                },
            },
    {
        let sent = self.start_command(payload, scratch)?;
        let written = self.command_written(true);
        assert(written is Ok);
        assert(Seq::<u8>::empty() + incoming@ =~= incoming@);
        let outcome = match self.reply_bytes(incoming) {
            ReadStep::More => {
                let step = self.read_failed(ReadFault::Other);
                Err(AtError::NotReady)
            },
            ReadStep::Complete => {
                proof {
                    self.lemma_reply();
                }
                self.finish_reply(payload)
            },
            ReadStep::Failed(e) => Err(e),
        };
        Ok((sent, outcome))
    }

    /// Reads one reply from a transport that delivers `incoming` in one
    /// read: frames it, copies the complete reply, terminator included, to
    /// the start of `response_out`, and returns the length of the content
    /// before the terminator. A failure reply is an error with the bytes
    /// consumed, a full buffer a capacity error, and bytes without a
    /// terminator leave the engine not ready.
    pub fn read_response(&mut self, incoming: &[u8], response_out: &mut BufferType) -> (r: Result<
        usize,
        AtError,
    >)
        requires
            old(self).wf(),
        ensures
            final(self).wf(),
            final(self).sleep_mode() == old(self).sleep_mode(),
            old(self).phase() != Phase::Idle ==> r == Err::<usize, AtError>(
                AtError::IllegalModuleState,
            ) && final(self).phase() == old(self).phase(),
            old(self).phase() == Phase::Idle ==> {
                &&& final(self).phase() == Phase::Idle
                &&& final(self).received() == incoming@
                &&& is_verdict(incoming@, BUFFER_SIZE as nat, final(self).frame_status())
                &&& match final(self).frame_status() {
                    FrameStatus::Reading => r == Err::<usize, AtError>(AtError::NotReady),
                    FrameStatus::Success(content) => r == Ok::<usize, AtError>(content)
                        && final(response_out)@.subrange(0, content + TERMINATOR_LEN)
                        == incoming@.subrange(0, content + TERMINATOR_LEN),
                    FrameStatus::Failure(consumed) => r == Err::<usize, AtError>(
                        AtError::ErrorReply(consumed),
                    ),
                    FrameStatus::Overflow => r == Err::<usize, AtError>(AtError::CapacityError),
                }
            },
    {
        self.expect_reply()?;
        assert(Seq::<u8>::empty() + incoming@ =~= incoming@);
        match self.reply_bytes(incoming) {
            ReadStep::More => {
                let step = self.read_failed(ReadFault::Other);
                Err(AtError::NotReady)
            },
            ReadStep::Complete => {
                proof {
                    self.lemma_reply();
                }
                self.finish_raw(response_out)
            },
            ReadStep::Failed(e) => Err(e),
        }
    }

    /// What the engine does with a push that may be pending, given the
    /// outcome of the readiness probe (`None` where the probe failed):
    /// whether to read a message now. Refused while a command is in flight.
    pub fn poll_unsolicited(&self, ready: Option<bool>) -> (r: Result<bool, AtError>)
        ensures
            r == if self.phase() != Phase::Idle {
                Err::<bool, AtError>(AtError::IllegalModuleState)
            } else {
                match ready {
                    Some(pending) => Ok::<bool, AtError>(pending),
                    None => Err::<bool, AtError>(AtError::IOError),
                }
            },
    {
        if self.phase != Phase::Idle {
            return Err(AtError::IllegalModuleState);
        }
        match ready {
            Some(pending) => Ok(pending),
            None => Err(AtError::IOError),
        }
    }

    /// Decodes a pushed message from the bytes of one read (`None` where
    /// the read failed). Refused while a command is in flight.
    pub fn get_unsolicited_message<M: UnsolicitedMessage>(&self, read: Option<&[u8]>) -> (r: Result<
        M,
        AtError,
    >)
        ensures
            if self.phase() != Phase::Idle {
                fails_with(r, AtError::IllegalModuleState)
            } else {
                match read {
                    Some(bytes) => M::decoded(bytes@, r),
                    None => fails_with(r, AtError::IOError),
                }
            },
    {
        if self.phase != Phase::Idle {
            return Err(AtError::IllegalModuleState);
        }
        match read {
            Some(bytes) => M::decode(bytes),
            None => Err(AtError::IOError),
        }
    }

    /// Completes `set_sleep_mode` with the change as far as it was carried
    /// out: the mode is recorded where the change is done, which it is after
    /// the wake line was de-asserted and the command succeeded. A change that
    /// failed leaves the mode as it was and returns its error; one that is
    /// not finished is refused.
    pub fn set_sleep_mode(&mut self, change: SleepModeChange) -> (r: Result<(), AtError>)
        requires
            old(self).wf(),
        ensures
            final(self).wf(),
            final(self).phase() == old(self).phase(),
            r == match change.step {
                SleepChangeStep::Done => Ok::<(), AtError>(()),
                SleepChangeStep::Failed(e) => Err::<(), AtError>(e),
                _ => Err::<(), AtError>(AtError::IllegalModuleState),
            },
            final(self).sleep_mode() == if change.step == SleepChangeStep::Done {
                change.mode
            } else {
                old(self).sleep_mode()
            },
    {
        match change.step {
            SleepChangeStep::Done => {
                self.sleep_mode = change.mode;
                Ok(())
            },
            SleepChangeStep::Failed(e) => Err(e),
            _ => Err(AtError::IllegalModuleState),
        }
    }

    /// What sends the module to sleep: asserting the wake line, which is
    /// legal only where the sleep mode is controlled by hardware.
    pub fn start_sleeping(&self) -> (r: Result<WakeAction, AtError>)
        ensures
            r == if self.sleep_mode() == CSCLKMode::HardwareControlled {
                Ok::<WakeAction, AtError>(WakeAction::RaiseWakeLine)
            } else {
                Err::<WakeAction, AtError>(AtError::IllegalModuleState)
            },
    {
        if self.sleep_mode != CSCLKMode::HardwareControlled {
            return Err(AtError::IllegalModuleState);
        }
        Ok(WakeAction::RaiseWakeLine)
    }

    /// What wakes the module, by the sleep mode that was set.
    pub fn wake_up(&self) -> (r: WakeAction)
        ensures
            r == match self.sleep_mode() {
                CSCLKMode::Disabled => WakeAction::Nothing,
                CSCLKMode::SoftwareControlled => WakeAction::SendProbes,
                CSCLKMode::HardwareControlled => WakeAction::LowerWakeLine,
            },
    {
        match self.sleep_mode {
            CSCLKMode::Disabled => WakeAction::Nothing,
            CSCLKMode::SoftwareControlled => WakeAction::SendProbes,
            CSCLKMode::HardwareControlled => WakeAction::LowerWakeLine,
        }
    }

    /// The bytes that wake a module whose sleep is controlled by software:
    /// the bare probe, twice.
    pub fn wake_probes() -> (r: &'static [u8])
        ensures
            r@ == At::probe_line() + At::probe_line(),
    {
        let r = "AT\r\nAT\r\n".as_bytes();
        proof {
            At::lemma_probe_twice();
        }
        r
    }

    /// The command that switches the echo off.
    pub fn disable_echo() -> (r: AtEcho)
        ensures
            r.status == Echo::Disable,
    {
        AtEcho { status: Echo::Disable }
    }

    /// The command that makes the module report errors with their text.
    pub fn enable_numeric_errors() -> (r: SetReportMobileEquipmentError)
        ensures
            r.setting == ReportMobileEquipmentErrorSetting::EnabledVerbose,
    {
        SetReportMobileEquipmentError { setting: ReportMobileEquipmentErrorSetting::EnabledVerbose }
    }

    /// The command that sets how the module reports errors.
    pub fn verbosity(verbosity: ReportMobileEquipmentErrorSetting) -> (r:
        SetReportMobileEquipmentError)
        ensures
            r.setting == verbosity,
    {
        SetReportMobileEquipmentError { setting: verbosity }
    }

    /// The command that asks for the flow control.
    pub fn get_flow_control() -> (r: GetFlowControl) {
        GetFlowControl
    }

    /// The command that sets software flow control for both directions.
    pub fn set_flow_control() -> (r: SetFlowControl)
        ensures
            r.ta_to_te == ControlFlowStatus::Software,
            r.te_to_ta == ControlFlowStatus::Software,
    {
        SetFlowControl {
            ta_to_te: ControlFlowStatus::Software,
            te_to_ta: ControlFlowStatus::Software,
        }
    }

    /// The command that probes whether the module is ready.
    pub fn ready() -> (r: At) {
        At {  }
    }
}

/// The error for a digital output line that could not be driven.
pub fn line_driven(driven: bool) -> (r: Result<(), AtError>)
    ensures
        r == if driven {
            Ok::<(), AtError>(())
        } else {
            Err::<(), AtError>(AtError::HALError)
        },
{
    if driven {
        Ok(())
    } else {
        Err(AtError::HALError)
    }
}

/// The error for bytes that could not be written.
pub fn bytes_written(written: bool) -> (r: Result<(), AtError>)
    ensures
        r == if written {
            Ok::<(), AtError>(())
        } else {
            Err::<(), AtError>(AtError::IOError)
        },
{
    if written {
        Ok(())
    } else {
        Err(AtError::IOError)
    }
}

/// A step of changing the sleep mode.
#[derive(Clone, Copy, Debug, PartialEq, Eq, Structural)]
pub enum SleepChangeStep {
    /// The wake line is to be de-asserted, so that the module does not fall
    /// asleep while its mode is changed.
    ReleaseWake,
    /// The command that sets the mode is to be executed.
    SetMode,
    /// The module has the new mode.
    Done,
    /// The change failed.
    Failed(AtError),
}

/// What the caller does for a step of changing the sleep mode.
#[derive(Clone, Copy, Debug)]
pub enum SleepChangeAction {
    /// Drive the wake line low.
    DeassertWakeLine,
    /// Execute this command.
    Execute(SetCSCLKMode),
    /// Nothing: hand the change to the engine, which records the mode.
    Done,
    /// Nothing: the change failed with this error.
    Fail(AtError),
}

/// Changing the sleep mode, step by step: first the wake line is
/// de-asserted, then the command that sets the mode is executed.
#[derive(Clone, Copy, Debug, PartialEq, Eq, Structural)]
pub struct SleepModeChange {
    /// The mode to set.
    pub mode: CSCLKMode,
    /// The step that is due.
    pub step: SleepChangeStep,
}

impl SleepModeChange {
    /// The change after the step that was due went as `outcome` says. A
    /// wake line that cannot be driven is a HAL error; the error of the
    /// command is the error of the change.
    pub open spec fn after(self, outcome: Result<(), AtError>) -> SleepModeChange {
        match self.step {
            SleepChangeStep::ReleaseWake => if outcome is Ok {
                SleepModeChange { step: SleepChangeStep::SetMode, ..self }
            } else {
                SleepModeChange { step: SleepChangeStep::Failed(AtError::HALError), ..self }
            },
            SleepChangeStep::SetMode => match outcome {
                Ok(_) => SleepModeChange { step: SleepChangeStep::Done, ..self },
                Err(e) => SleepModeChange { step: SleepChangeStep::Failed(e), ..self },
            },
            _ => self,
        }
    }

    /// The change to `mode`, before its first step.
    pub fn begin(mode: CSCLKMode) -> (r: SleepModeChange)
        ensures
            r == (SleepModeChange { mode, step: SleepChangeStep::ReleaseWake }),
    {
        SleepModeChange { mode, step: SleepChangeStep::ReleaseWake }
    }

    /// What the caller does for the step that is due.
    pub fn action(&self) -> (r: SleepChangeAction)
        ensures
            match self.step {
                SleepChangeStep::ReleaseWake => r is DeassertWakeLine,
                SleepChangeStep::SetMode => r matches SleepChangeAction::Execute(command)
                    && command.mode == self.mode,
                SleepChangeStep::Done => r is Done,
                SleepChangeStep::Failed(e) => r matches SleepChangeAction::Fail(x) && x == e,
            },
    {
        match self.step {
            SleepChangeStep::ReleaseWake => SleepChangeAction::DeassertWakeLine,
            SleepChangeStep::SetMode => SleepChangeAction::Execute(
                SetCSCLKMode { mode: self.mode },
            ),
            SleepChangeStep::Done => SleepChangeAction::Done,
            SleepChangeStep::Failed(e) => SleepChangeAction::Fail(e),
        }
    }

    /// Moves to the next step, given how the one that was due went.
    pub fn advance(self, outcome: Result<(), AtError>) -> (r: SleepModeChange)
        ensures
            r == self.after(outcome),
    {
        let step = match self.step {
            SleepChangeStep::ReleaseWake => if outcome.is_ok() {
                SleepChangeStep::SetMode
            } else {
                SleepChangeStep::Failed(AtError::HALError)
            },
            SleepChangeStep::SetMode => match outcome {
                Ok(_) => SleepChangeStep::Done,
                Err(e) => SleepChangeStep::Failed(e),
            },
            SleepChangeStep::Done => SleepChangeStep::Done,
            SleepChangeStep::Failed(e) => SleepChangeStep::Failed(e),
        };
        SleepModeChange { mode: self.mode, step }
    }
}

/// A change of the sleep mode is done only after the wake line was
/// de-asserted and, after that, the command succeeded; and it keeps the mode
/// it was begun with.
pub proof fn lemma_sleep_change_order(
    mode: CSCLKMode,
    line: Result<(), AtError>,
    command: Result<(), AtError>,
)
    ensures
        (SleepModeChange { mode, step: SleepChangeStep::ReleaseWake }).after(line).step
            != SleepChangeStep::Done,
        (SleepModeChange { mode, step: SleepChangeStep::ReleaseWake }).after(line).after(
            command,
        ).step == SleepChangeStep::Done <==> line is Ok && command is Ok,
        (SleepModeChange { mode, step: SleepChangeStep::ReleaseWake }).after(line).after(
            command,
        ).mode == mode,
{
}

/// The bring-up of the module, step by step: assert the power line,
/// de-assert the wake line, wait for the module to start, switch the echo
/// off. A step that fails ends the bring-up.
#[derive(Clone, Copy, Debug, PartialEq, Eq, Structural)]
pub enum BringUp {
    /// The power line is to be asserted.
    PowerOn,
    /// The wake line is to be de-asserted, so that the module stays awake.
    ReleaseWake,
    /// The module is to be given time to start.
    Settle,
    /// The echo is to be switched off.
    DisableEcho,
    /// The module is up.
    Ready,
    /// The bring-up failed.
    Failed(AtError),
}

/// What the caller does for a step of the bring-up.
#[derive(Clone, Copy, Debug)]
pub enum BringUpAction {
    /// Drive the power line high.
    AssertPowerLine,
    /// Drive the wake line low.
    DeassertWakeLine,
    /// Wait this many milliseconds.
    Wait(u32),
    /// Execute this command.
    Execute(AtEcho),
    /// Nothing: the module is up.
    Done,
    /// Nothing: the bring-up failed with this error.
    Fail(AtError),
}

impl BringUp {
    /// The step after this one, given how this one went. A line that cannot
    /// be driven is a HAL error; the wait cannot fail; the error of the
    /// echo command is the error of the bring-up.
    pub open spec fn after(self, outcome: Result<(), AtError>) -> BringUp {
        match self {
            BringUp::PowerOn => if outcome is Ok {
                BringUp::ReleaseWake
            } else {
                BringUp::Failed(AtError::HALError)
            },
            BringUp::ReleaseWake => if outcome is Ok {
                BringUp::Settle
            } else {
                BringUp::Failed(AtError::HALError)
            },
            BringUp::Settle => BringUp::DisableEcho,
            BringUp::DisableEcho => match outcome {
                Ok(_) => BringUp::Ready,
                Err(e) => BringUp::Failed(e),
            },
            BringUp::Ready => BringUp::Ready,
            BringUp::Failed(e) => BringUp::Failed(e),
        }
    }

    /// The first step.
    pub fn begin() -> (r: BringUp)
        ensures
            r == BringUp::PowerOn,
    {
        BringUp::PowerOn
    }

    /// What the caller does for this step.
    pub fn action(&self) -> (r: BringUpAction)
        ensures
            match *self {
                BringUp::PowerOn => r is AssertPowerLine,
                BringUp::ReleaseWake => r is DeassertWakeLine,
                BringUp::Settle => r matches BringUpAction::Wait(time) && time
                    == AWAIT_TIME_FOR_POWER_UP,
                BringUp::DisableEcho => r matches BringUpAction::Execute(command)
                    && command.status == Echo::Disable,
                BringUp::Ready => r is Done,
                BringUp::Failed(e) => r matches BringUpAction::Fail(x) && x == e,
            },
    {
        match self {
            BringUp::PowerOn => BringUpAction::AssertPowerLine,
            BringUp::ReleaseWake => BringUpAction::DeassertWakeLine,
            BringUp::Settle => BringUpAction::Wait(AWAIT_TIME_FOR_POWER_UP),
            BringUp::DisableEcho => BringUpAction::Execute(Modem::disable_echo()),
            BringUp::Ready => BringUpAction::Done,
            BringUp::Failed(e) => BringUpAction::Fail(*e),
        }
    }

    /// Moves to the next step, given how this one went.
    pub fn advance(self, outcome: Result<(), AtError>) -> (r: BringUp)
        ensures
            r == self.after(outcome),
    {
        match self {
            BringUp::PowerOn => if outcome.is_ok() {
                BringUp::ReleaseWake
            } else {
                BringUp::Failed(AtError::HALError)
            },
            BringUp::ReleaseWake => if outcome.is_ok() {
                BringUp::Settle
            } else {
                BringUp::Failed(AtError::HALError)
            },
            BringUp::Settle => BringUp::DisableEcho,
            BringUp::DisableEcho => match outcome {
                Ok(_) => BringUp::Ready,
                Err(e) => BringUp::Failed(e),
            },
            BringUp::Ready => BringUp::Ready,
            BringUp::Failed(e) => BringUp::Failed(e),
        }
    }

    /// The whole bring-up, given how each of its four steps went.
    pub open spec fn run(
        power: Result<(), AtError>,
        wake: Result<(), AtError>,
        echo: Result<(), AtError>,
    ) -> BringUp {
        BringUp::PowerOn.after(power).after(wake).after(Ok(())).after(echo)
    }
}

/// The bring-up succeeds only where the echo was switched off: the module
/// gets ready by no step but a successful echo command, and a failed one
/// fails the bring-up with its error.
pub proof fn lemma_bring_up_needs_echo_off(state: BringUp, outcome: Result<(), AtError>)
    ensures
        state.after(outcome) is Ready ==> state is Ready || (state is DisableEcho && outcome
            is Ok),
        state is DisableEcho && outcome is Err ==> state.after(outcome) == BringUp::Failed(
            outcome.unwrap_err(),
        ),
{
}

/// The bring-up ends ready exactly where both lines were driven and the
/// echo was switched off.
pub proof fn lemma_bring_up_outcome(
    power: Result<(), AtError>,
    wake: Result<(), AtError>,
    echo: Result<(), AtError>,
)
    ensures
        BringUp::run(power, wake, echo) is Ready <==> power is Ok && wake is Ok && echo is Ok,
        !(BringUp::run(power, wake, echo) is Ready) ==> BringUp::run(power, wake, echo)
            is Failed,
{
}

/// How often the PIN is entered at most where the caller does not say.
pub const MAX_UNLOCK_TRIES: usize = 1;

/// A step of unlocking the SIM.
#[derive(Clone, Copy, Debug, PartialEq, Eq, Structural)]
pub enum UnlockStep {
    /// Ask the SIM what it waits for.
    Probe,
    /// Enter the PIN.
    Enter,
    /// The SIM is unlocked.
    Unlocked,
    /// The attempt failed.
    Failed(AtError),
}

/// Unlocking the SIM with a PIN, step by step: probe the state; a ready
/// SIM is done; a SIM that waits for its PIN gets it, and is probed again;
/// any other state ends the attempt with that state. The PIN is entered a
/// bounded number of times.
#[derive(Clone, Copy, Debug, PartialEq, Eq, Structural)]
pub struct SimUnlock {
    /// The PIN.
    pub pin: u16,
    /// How often the PIN may still be entered.
    pub tries_left: usize,
    /// The step that is due.
    pub step: UnlockStep,
}

impl SimUnlock {
    /// The attempt after the SIM reported `status`, where a probe was due.
    pub open spec fn after_status(self, status: Result<PinStatus, AtError>) -> SimUnlock {
        if self.step != UnlockStep::Probe {
            self
        } else {
            match status {
                Err(e) => SimUnlock { step: UnlockStep::Failed(e), ..self },
                Ok(PinStatus::Ready) => SimUnlock { step: UnlockStep::Unlocked, ..self },
                Ok(PinStatus::SimPin) => if self.tries_left > 0 {
                    SimUnlock {
                        step: UnlockStep::Enter,
                        tries_left: (self.tries_left - 1) as usize,
                        ..self
                    }
                } else {
                    SimUnlock {
                        step: UnlockStep::Failed(
                            AtError::IllegalPinStatus(PinStatus::SimPin),
                        ),
                        ..self
                    }
                },
                Ok(other) => SimUnlock {
                    step: UnlockStep::Failed(AtError::IllegalPinStatus(other)),
                    ..self
                },
            }
        }
    }

    /// The attempt after the PIN was entered with `outcome`, where that was
    /// due.
    pub open spec fn after_entered(self, outcome: Result<(), AtError>) -> SimUnlock {
        if self.step != UnlockStep::Enter {
            self
        } else {
            match outcome {
                Ok(_) => SimUnlock { step: UnlockStep::Probe, ..self },
                Err(e) => SimUnlock { step: UnlockStep::Failed(e), ..self },
            }
        }
    }

    /// A bound on the number of steps that the attempt still takes.
    pub open spec fn steps_left(self) -> nat {
        match self.step {
            UnlockStep::Probe => 2 * self.tries_left as nat + 1,
            UnlockStep::Enter => 2 * self.tries_left as nat + 2,
            _ => 0,
        }
    }

    /// An attempt with `pin`, which may be entered `max_unlock_tries`
    /// times, or once where no number is given.
    pub fn new(pin: u16, max_unlock_tries: Option<usize>) -> (r: SimUnlock)
        ensures
            r.pin == pin,
            r.step == UnlockStep::Probe,
            r.tries_left == match max_unlock_tries {
                Some(tries) => tries,
                None => MAX_UNLOCK_TRIES,
            },
    {
        let tries_left = match max_unlock_tries {
            Some(tries) => tries,
            None => MAX_UNLOCK_TRIES,
        };
        SimUnlock { pin, tries_left, step: UnlockStep::Probe }
    }

    /// The command that probes the SIM.
    pub fn probe_command(&self) -> (r: PINRequired) {
        PINRequired
    }

    /// The command that enters the PIN.
    pub fn enter_command(&self) -> (r: EnterPIN)
        ensures
            r.pin == self.pin,
    {
        EnterPIN { pin: self.pin }
    }

    /// Takes what the engine returned for the probe.
    pub fn on_status(self, status: Result<PinStatus, AtError>) -> (r: SimUnlock)
        ensures
            r == self.after_status(status),
    {
        if self.step != UnlockStep::Probe {
            return self;
        }
        let step = match status {
            Err(e) => UnlockStep::Failed(e),
            Ok(PinStatus::Ready) => UnlockStep::Unlocked,
            Ok(PinStatus::SimPin) => {
                if self.tries_left > 0 {
                    return SimUnlock {
                        pin: self.pin,
                        tries_left: self.tries_left - 1,
                        step: UnlockStep::Enter,
                    };
                }
                UnlockStep::Failed(AtError::IllegalPinStatus(PinStatus::SimPin))
            },
            Ok(other) => UnlockStep::Failed(AtError::IllegalPinStatus(other)),
        };
        SimUnlock { pin: self.pin, tries_left: self.tries_left, step }
    }

    /// Takes what the engine returned for entering the PIN.
    pub fn on_entered(self, outcome: Result<(), AtError>) -> (r: SimUnlock)
        ensures
            r == self.after_entered(outcome),
    {
        if self.step != UnlockStep::Enter {
            return self;
        }
        let step = match outcome {
            Ok(_) => UnlockStep::Probe,
            Err(e) => UnlockStep::Failed(e),
        };
        SimUnlock { pin: self.pin, tries_left: self.tries_left, step }
    }
}

/// Unlocking ends: every step that is due brings the attempt closer to its
/// end, and the PIN is never entered more often than allowed.
pub proof fn lemma_unlock_is_bounded(
    attempt: SimUnlock,
    status: Result<PinStatus, AtError>,
    outcome: Result<(), AtError>,
)
    ensures
        attempt.step is Probe ==> attempt.after_status(status).steps_left()
            < attempt.steps_left(),
        attempt.step is Enter ==> attempt.after_entered(outcome).steps_left()
            < attempt.steps_left(),
        attempt.after_status(status).tries_left <= attempt.tries_left,
        attempt.step is Probe && attempt.after_status(status).step is Enter
            ==> attempt.after_status(status).tries_left < attempt.tries_left,
        attempt.after_entered(outcome).tries_left == attempt.tries_left,
{
}

/// A SIM in a state that a PIN cannot unlock ends the attempt with that
/// state; a ready SIM ends it with success.
pub proof fn lemma_unlock_verdicts(attempt: SimUnlock, status: PinStatus)
    requires
        attempt.step is Probe,
    ensures
        status == PinStatus::Ready ==> attempt.after_status(Ok(status)).step
            == UnlockStep::Unlocked,
        status != PinStatus::Ready && status != PinStatus::SimPin ==> attempt.after_status(
            Ok(status),
        ).step == UnlockStep::Failed(AtError::IllegalPinStatus(status)),
{
}

} // verus!
