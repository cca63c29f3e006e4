//! Framing: finding where a reply ends in the bytes that arrive.
//!
//! A reply ends with one of two terminators. Success is the exact sequence
//! CR LF `O` `K` CR LF; failure is any text that ends in `RROR` CR LF. The
//! reader collects bytes in a buffer of fixed capacity until the first
//! terminator is complete, and reports an overflow where the buffer is full
//! before that.

use vstd::prelude::*;
use crate::wire::{has_prefix_at, run_end, scan_run, starts_with_at, ByteClass};
use crate::{BUFFER_SIZE, CR, LF};

verus! {

/// The number of bytes in either terminator.
pub const TERMINATOR_LEN: usize = 6;

/// The terminator of a successful reply: CR LF `OK` CR LF.
pub open spec fn ok_terminator() -> Seq<u8> {
    seq![CR, LF, 0x4fu8, 0x4bu8, CR, LF]
}

/// The terminator of a failed reply: `RROR` CR LF.
pub open spec fn error_terminator() -> Seq<u8> {
    seq![0x52u8, 0x52u8, 0x4fu8, 0x52u8, CR, LF]
}

/// Whether the bytes of `s` just before position `end` are `terminator`.
pub open spec fn ends_with_at(s: Seq<u8>, end: int, terminator: Seq<u8>) -> bool {
    terminator.len() <= end <= s.len() && s.subrange(end - terminator.len(), end) == terminator
}

/// Whether a terminator of either kind is complete at position `end` of `s`.
pub open spec fn terminator_at(s: Seq<u8>, end: int) -> bool {
    ends_with_at(s, end, ok_terminator()) || ends_with_at(s, end, error_terminator())
}

/// Whether no terminator is complete in `s` before position `end`.
pub open spec fn no_terminator_before(s: Seq<u8>, end: int) -> bool {
    forall|e: int| 0 <= e < end ==> !#[trigger] terminator_at(s, e)
}

/// What the reader knows of the bytes it was given.
#[derive(Clone, Copy, Debug, PartialEq, Eq, Structural)]
pub enum FrameStatus {
    /// No terminator yet, and room left in the buffer.
    Reading,
    /// The success terminator was found; the value is the length of the
    /// content before it.
    Success(usize),
    /// The failure terminator was found; the value is the number of bytes
    /// consumed up to its end.
    Failure(usize),
    /// The buffer was full before any terminator was complete.
    Overflow,
}

/// Whether `status` is the verdict on the byte stream `s` for a buffer of
/// `capacity` bytes: the first terminator decides, if it is complete within
/// the capacity.
pub open spec fn is_verdict(s: Seq<u8>, capacity: nat, status: FrameStatus) -> bool {
    match status {
        FrameStatus::Reading => s.len() <= capacity && no_terminator_before(s, s.len() as int + 1),
        FrameStatus::Success(content) => {
            &&& content + TERMINATOR_LEN <= capacity
            &&& ends_with_at(s, content + TERMINATOR_LEN, ok_terminator())
            &&& no_terminator_before(s, content + TERMINATOR_LEN)
        },
        FrameStatus::Failure(consumed) => {
            &&& consumed <= capacity
            &&& ends_with_at(s, consumed as int, error_terminator())
            &&& no_terminator_before(s, consumed as int)
        },
        FrameStatus::Overflow => s.len() > capacity && no_terminator_before(s, capacity as int + 1),
    }
}

/// The number of leading bytes of the stream that the reader holds on to
/// under `status`: everything while it reads, the reply with its terminator
/// once it has one, a full buffer after an overflow.
pub open spec fn kept_len(s: Seq<u8>, capacity: nat, status: FrameStatus) -> int {
    match status {
        FrameStatus::Reading => s.len() as int,
        FrameStatus::Success(content) => content + TERMINATOR_LEN,
        FrameStatus::Failure(consumed) => consumed as int,
        FrameStatus::Overflow => capacity as int,
    }
}

/// A terminator that is complete in a stream stays where it is when more
/// bytes arrive, and none appears in the part that was already there.
pub proof fn lemma_terminator_stable(s: Seq<u8>, more: Seq<u8>, end: int)
    requires
        0 <= end <= s.len(),
    ensures
        ends_with_at(s + more, end, ok_terminator()) == ends_with_at(s, end, ok_terminator()),
        ends_with_at(s + more, end, error_terminator()) == ends_with_at(
            s,
            end,
            error_terminator(),
        ),
        terminator_at(s + more, end) == terminator_at(s, end),
{
    if end >= 6 {
        assert((s + more).subrange(end - 6, end) =~= s.subrange(end - 6, end));
    }
}

/// The two terminators differ, so at most one kind is complete at a position.
pub proof fn lemma_terminators_differ(s: Seq<u8>, end: int)
    ensures
        !(ends_with_at(s, end, ok_terminator()) && ends_with_at(s, end, error_terminator())),
{
    if ends_with_at(s, end, ok_terminator()) && ends_with_at(s, end, error_terminator()) {
        assert(ok_terminator()[0] == 0x0du8);
        assert(error_terminator()[0] == 0x52u8);
    }
}

/// A stream has one verdict only.
pub proof fn lemma_verdict_unique(s: Seq<u8>, capacity: nat, a: FrameStatus, b: FrameStatus)
    requires
        is_verdict(s, capacity, a),
        is_verdict(s, capacity, b),
    ensures
        a == b,
{
    let end_a = match a {
        FrameStatus::Success(content) => content + TERMINATOR_LEN,
        FrameStatus::Failure(consumed) => consumed as int,
        _ => -1,
    };
    let end_b = match b {
        FrameStatus::Success(content) => content + TERMINATOR_LEN,
        FrameStatus::Failure(consumed) => consumed as int,
        _ => -1,
    };
    if end_a >= 0 {
        assert(terminator_at(s, end_a));
        lemma_terminators_differ(s, end_a);
    }
    if end_b >= 0 {
        assert(terminator_at(s, end_b));
        lemma_terminators_differ(s, end_b);
    }
}

/// Once a stream has a verdict other than `Reading`, more bytes do not
/// change it.
pub proof fn lemma_verdict_final(s: Seq<u8>, more: Seq<u8>, capacity: nat, status: FrameStatus)
    requires
        is_verdict(s, capacity, status),
        status != FrameStatus::Reading,
    ensures
        is_verdict(s + more, capacity, status),
{
    let end = match status {
        FrameStatus::Success(content) => content + TERMINATOR_LEN,
        FrameStatus::Failure(consumed) => consumed as int,
        _ => capacity as int + 1,
    };
    assert forall|e: int| 0 <= e < end implies !#[trigger] terminator_at(s + more, e) by {
        lemma_terminator_stable(s, more, e);
    }
    if status != FrameStatus::Overflow {
        lemma_terminator_stable(s, more, end);
    }
}

/// Collects the bytes of one reply and tells where it ends.
pub struct FrameReader {
    buffer: Vec<u8>,
    status: FrameStatus,
    stream: Ghost<Seq<u8>>,
}

impl FrameReader {
    /// The invariant of a reader: its status is the verdict on the bytes it
    /// was given, and its buffer holds the part of them that it keeps.
    pub closed spec fn wf(&self) -> bool {
        &&& is_verdict(self.stream@, BUFFER_SIZE as nat, self.status)
        &&& self.buffer@ == self.stream@.subrange(
            0,
            kept_len(self.stream@, BUFFER_SIZE as nat, self.status),
        )
        &&& self.buffer@.len() <= BUFFER_SIZE
    }

    /// Every byte the reader was given since it was made, in order.
    pub closed spec fn stream(&self) -> Seq<u8> {
        self.stream@
    }

    /// The reader's verdict on its stream.
    pub closed spec fn status_spec(&self) -> FrameStatus {
        self.status
    }

    /// The bytes in the reader's buffer.
    pub closed spec fn held(&self) -> Seq<u8> {
        self.buffer@
    }

    /// What a well-formed reader's status and buffer are, in terms of its
    /// stream.
    pub proof fn lemma_wf(&self)
        requires
            self.wf(),
        ensures
            is_verdict(self.stream(), BUFFER_SIZE as nat, self.status_spec()),
            self.held() == self.stream().subrange(
                0,
                kept_len(self.stream(), BUFFER_SIZE as nat, self.status_spec()),
            ),
            self.held().len() <= BUFFER_SIZE,
    {
    }

    /// A reader that was given nothing yet.
    pub fn new() -> (r: FrameReader)
        ensures
            r.wf(),
            r.stream() == Seq::<u8>::empty(),
            r.held() == Seq::<u8>::empty(),
            r.status_spec() == FrameStatus::Reading,
    {
        let r = FrameReader {
            buffer: Vec::new(),
            status: FrameStatus::Reading,
            stream: Ghost(Seq::empty()),
        };
        assert(r.buffer@ =~= r.stream@.subrange(0, 0));
        r
    }

    /// The reader's verdict on the bytes it was given.
    pub fn status(&self) -> (r: FrameStatus)
        ensures
            r == self.status_spec(),
    {
        self.status
    }

    /// The bytes the reader holds: while it reads, all it was given; once a
    /// terminator was found, the reply up to the terminator's end.
    pub fn bytes(&self) -> (r: &[u8])
        ensures
            r@ == self.held(),
    {
        self.buffer.as_slice()
    }

    /// Gives the reader the next byte of the stream.
    pub fn push(&mut self, byte: u8) -> (r: FrameStatus)
        requires
            old(self).wf(),
        ensures
            final(self).wf(),
            final(self).stream() == old(self).stream().push(byte),
            r == final(self).status_spec(),
            is_verdict(final(self).stream(), BUFFER_SIZE as nat, r),
            final(self).held() == final(self).stream().subrange(
                0,
                kept_len(final(self).stream(), BUFFER_SIZE as nat, r),
            ),
    {
        let ghost before = self.stream@;
        let ghost after = before.push(byte);
        assert(after =~= before + seq![byte]);
        proof {
            self.stream@ = after;
        }
        if self.status != FrameStatus::Reading {
            proof {
                lemma_verdict_final(before, seq![byte], BUFFER_SIZE as nat, self.status);
                assert(after.subrange(0, kept_len(after, BUFFER_SIZE as nat, self.status))
                    =~= before.subrange(0, kept_len(before, BUFFER_SIZE as nat, self.status)));
            }
            return self.status;
        }
        assert(self.buffer@ =~= before);
        assert forall|e: int| 0 <= e < after.len() implies !#[trigger] terminator_at(after, e) by {
            lemma_terminator_stable(before, seq![byte], e);
        }
        if self.buffer.len() == BUFFER_SIZE {
            self.status = FrameStatus::Overflow;
            assert(self.buffer@ =~= after.subrange(0, BUFFER_SIZE as int));
            return self.status;
        }
        self.buffer.push(byte);
        assert(self.buffer@ =~= after);
        let n = self.buffer.len();
        if n >= TERMINATOR_LEN && self.buffer[n - 2] == 0x0d && self.buffer[n - 1] == 0x0a {
            if self.buffer[n - 6] == 0x0d && self.buffer[n - 5] == 0x0a && self.buffer[n - 4]
                == 0x4f && self.buffer[n - 3] == 0x4b {
                assert(after.subrange(n - 6, n as int) =~= ok_terminator());
                self.status = FrameStatus::Success(n - TERMINATOR_LEN);
                assert(self.buffer@ =~= after.subrange(0, n as int));
                return self.status;
            }
            if self.buffer[n - 6] == 0x52 && self.buffer[n - 5] == 0x52 && self.buffer[n - 4]
                == 0x4f && self.buffer[n - 3] == 0x52 {
                assert(after.subrange(n - 6, n as int) =~= error_terminator());
                self.status = FrameStatus::Failure(n);
                assert(self.buffer@ =~= after.subrange(0, n as int));
                return self.status;
            }
        }
        proof {
            if n >= 6 {
                let window = after.subrange(n - 6, n as int);
                assert(window[0] == after[n - 6] && window[1] == after[n - 5] && window[2]
                    == after[n - 4] && window[3] == after[n - 3] && window[4] == after[n - 2]
                    && window[5] == after[n - 1]);
            }
            assert(!terminator_at(after, n as int));
            assert(self.buffer@ =~= after.subrange(0, n as int));
        }
        self.status
    }

    /// Gives the reader the next bytes of the stream, in order. Bytes that
    /// follow the end of the reply are counted but not kept.
    pub fn feed(&mut self, chunk: &[u8]) -> (r: FrameStatus)
        requires
            old(self).wf(),
        ensures
            final(self).wf(),
            final(self).stream() == old(self).stream() + chunk@,
            r == final(self).status_spec(),
            is_verdict(final(self).stream(), BUFFER_SIZE as nat, r),
            final(self).held() == final(self).stream().subrange(
                0,
                kept_len(final(self).stream(), BUFFER_SIZE as nat, r),
            ),
    {
        let mut k: usize = 0;
        assert(self.stream() =~= old(self).stream() + chunk@.subrange(0, 0));
        while k < chunk.len()
            invariant
                k <= chunk@.len(),
                self.wf(),
                self.stream() == old(self).stream() + chunk@.subrange(0, k as int),
            decreases chunk@.len() - k,
        {
            self.push(chunk[k]);
            assert(chunk@.subrange(0, k + 1) =~= chunk@.subrange(0, k as int).push(
                chunk@[k as int],
            ));
            assert(self.stream() =~= old(self).stream() + chunk@.subrange(0, k + 1));
            k += 1;
        }
        assert(chunk@.subrange(0, k as int) =~= chunk@);
        self.status
    }

    /// The content of a successful reply: the bytes before the success
    /// terminator. `None` unless the status is `Success`.
    pub fn content(&self) -> (r: Option<&[u8]>)
        requires
            self.wf(),
        ensures
            match self.status_spec() {
                FrameStatus::Success(length) => r is Some && r.unwrap()@ == self.stream().subrange(
                    0,
                    length as int,
                ),
                _ => r is None,
            },
    {
        match self.status {
            FrameStatus::Success(length) => {
                let content = vstd::slice::slice_subrange(self.buffer.as_slice(), 0, length);
                assert(content@ =~= self.stream@.subrange(0, length as int));
                Some(content)
            },
            _ => None,
        }
    }
}

/// The content of a well-formed reply is returned unchanged: where a stream
/// is some content followed by the success terminator, no terminator is
/// complete before the stream's end, and the stream fits the buffer, the
/// verdict is `Success` with the content's length, and that many leading
/// bytes of the stream are the content.
pub proof fn lemma_success_returns_content(content: Seq<u8>, capacity: nat, status: FrameStatus)
    requires
        content.len() + TERMINATOR_LEN <= capacity <= usize::MAX,
        no_terminator_before(content + ok_terminator(), content.len() + TERMINATOR_LEN),
        is_verdict(content + ok_terminator(), capacity, status),
    ensures
        status == FrameStatus::Success(content.len() as usize),
        (content + ok_terminator()).subrange(0, content.len() as int) == content,
{
    let s = content + ok_terminator();
    assert(s.subrange(content.len() as int, s.len() as int) =~= ok_terminator());
    assert(s.subrange(0, content.len() as int) =~= content);
    lemma_verdict_unique(s, capacity, status, FrameStatus::Success(content.len() as usize));
}

/// A failed reply is reported with all of it consumed: where a stream ends
/// in the failure terminator, no terminator is complete before the stream's
/// end, and the stream fits the buffer, the verdict is `Failure` with the
/// offset at which the terminator ends, which is the stream's length.
pub proof fn lemma_failure_reports_end(head: Seq<u8>, capacity: nat, status: FrameStatus)
    requires
        head.len() + TERMINATOR_LEN <= capacity <= usize::MAX,
        no_terminator_before(head + error_terminator(), head.len() + TERMINATOR_LEN),
        is_verdict(head + error_terminator(), capacity, status),
    ensures
        status == FrameStatus::Failure((head + error_terminator()).len() as usize),
{
    let s = head + error_terminator();
    assert(s.subrange(head.len() as int, s.len() as int) =~= error_terminator());
    lemma_verdict_unique(s, capacity, status, FrameStatus::Failure(s.len() as usize));
}

/// Frames a stream that is there as a whole: the verdict on `stream` for a
/// buffer of `BUFFER_SIZE` bytes.
pub fn frame_of(stream: &[u8]) -> (r: FrameStatus)
    ensures
        is_verdict(stream@, BUFFER_SIZE as nat, r),
{
    let mut reader = FrameReader::new();
    let r = reader.feed(stream);
    proof {
        reader.lemma_wf();
        assert(reader.stream() =~= stream@);
    }
    r
}

/// The command prefix, with which an echoed command begins.
pub open spec fn command_prefix() -> Seq<u8> {
    seq![0x41u8, 0x54u8]
}

/// The number of leading bytes of a reply that are an echoed command:
/// where the reply begins with the command prefix, the bytes up to the
/// first carriage return and that carriage return; none otherwise.
pub open spec fn echo_len(reply: Seq<u8>) -> int {
    if has_prefix_at(reply, 0, command_prefix()) && run_end(reply, 0, ByteClass::SameLine)
        < reply.len() {
        run_end(reply, 0, ByteClass::SameLine) + 1
    } else {
        0
    }
}

/// A reply without the echoed command that may lead it.
pub open spec fn without_echo(reply: Seq<u8>) -> Seq<u8> {
    reply.subrange(echo_len(reply), reply.len() as int)
}

/// Skips the echoed command that may lead a reply.
pub fn skip_echo(reply: &[u8]) -> (r: &[u8])
    ensures
        r@ == without_echo(reply@),
{
    let prefix: [u8; 2] = [0x41, 0x54];
    assert(prefix@ =~= command_prefix());
    if !starts_with_at(reply, 0, prefix.as_slice()) {
        assert(reply@.subrange(0, reply@.len() as int) =~= reply@);
        return reply;
    }
    let end = scan_run(reply, 0, ByteClass::SameLine);
    if end < reply.len() {
        vstd::slice::slice_subrange(reply, end + 1, reply.len())
    } else {
        assert(reply@.subrange(0, reply@.len() as int) =~= reply@);
        reply
    }
}

} // verus!
