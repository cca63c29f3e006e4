//! The grammar of reply lines, as functions on bytes.
//!
//! A reply is read from left to right by a [`Cursor`]. Each step either
//! advances the cursor or marks it invalid; an invalid cursor stays as it is
//! under every later step, so a whole reply is well formed exactly when the
//! cursor is still valid after the last step.

use vstd::prelude::*;
use vstd::utf8::valid_utf8;
use vstd::string::StringSliceAdditionalSpecFns;

verus! {

/// A set of byte values that a run of input may be made of.
#[derive(Clone, Copy, PartialEq, Eq, Debug)]
pub enum ByteClass {
    /// The space character only.
    Space,
    /// ASCII whitespace: space, tab, line feed, form feed, carriage return.
    Whitespace,
    /// What an integer field is written with: decimal digits, `+` and `-`.
    IntegerText,
    /// Every byte that is not an ASCII control character.
    Printable,
    /// Every byte but the double quote.
    Unquoted,
    /// Every byte but the carriage return.
    SameLine,
}

/// Whether `byte` belongs to `class`.
pub open spec fn in_class(class: ByteClass, byte: u8) -> bool {
    match class {
        ByteClass::Space => byte == 0x20,
        ByteClass::Whitespace => byte == 0x20 || byte == 0x09 || byte == 0x0a || byte == 0x0c
            || byte == 0x0d,
        ByteClass::IntegerText => (0x30 <= byte && byte <= 0x39) || byte == 0x2b || byte == 0x2d,
        ByteClass::Printable => 0x20 <= byte && byte != 0x7f,
        ByteClass::Unquoted => byte != 0x22,
        ByteClass::SameLine => byte != 0x0d,
    }
}

/// The first position at or after `from` whose byte is not in `class`, or the
/// length of `s` where there is none.
pub open spec fn run_end(s: Seq<u8>, from: int, class: ByteClass) -> int
    decreases s.len() - from,
{
    if 0 <= from < s.len() && in_class(class, s[from]) {
        run_end(s, from + 1, class)
    } else {
        from
    }
}

/// Whether `byte` belongs to `class`.
pub fn class_holds(class: ByteClass, byte: u8) -> (r: bool)
    ensures
        r == in_class(class, byte),
{
    match class {
        ByteClass::Space => byte == 0x20,
        ByteClass::Whitespace => byte == 0x20 || byte == 0x09 || byte == 0x0a || byte == 0x0c
            || byte == 0x0d,
        ByteClass::IntegerText => (0x30 <= byte && byte <= 0x39) || byte == 0x2b || byte == 0x2d,
        ByteClass::Printable => 0x20 <= byte && byte != 0x7f,
        ByteClass::Unquoted => byte != 0x22,
        ByteClass::SameLine => byte != 0x0d,
    }
}

/// Finds where the run of `class` bytes that starts at `from` ends.
pub fn scan_run(data: &[u8], from: usize, class: ByteClass) -> (end: usize)
    ensures
        end == run_end(data@, from as int, class),
        from <= end,
        from <= data@.len() ==> end <= data@.len(),
{
    if from >= data.len() {
        return from;
    }
    let mut at: usize = from;
    while at < data.len() && class_holds(class, data[at])
        invariant
            from <= at <= data@.len(),
            run_end(data@, from as int, class) == run_end(data@, at as int, class),
        decreases data@.len() - at,
    {
        at += 1;
    }
    at
}

/// Whether `id` stands in `s` at position `at`.
pub open spec fn has_prefix_at(s: Seq<u8>, at: int, id: Seq<u8>) -> bool {
    0 <= at && at + id.len() <= s.len() && s.subrange(at, at + id.len()) == id
}

/// Tells whether `id` stands in `data` at position `at`.
pub fn starts_with_at(data: &[u8], at: usize, id: &[u8]) -> (r: bool)
    ensures
        r == has_prefix_at(data@, at as int, id@),
{
    if at > data.len() || id.len() > data.len() - at {
        return false;
    }
    let mut k: usize = 0;
    while k < id.len()
        invariant
            at + id@.len() <= data@.len() <= usize::MAX,
            k <= id@.len(),
            forall|j: int| 0 <= j < k ==> data@[at + j] == id@[j],
        decreases id@.len() - k,
    {
        if data[at + k] != id[k] {
            assert(data@.subrange(at as int, at + id@.len())[k as int] == data@[at + k]);
            return false;
        }
        k += 1;
    }
    assert(data@.subrange(at as int, at + id@.len()) =~= id@);
    true
}

/// Tells whether two byte strings are equal.
pub fn bytes_equal(a: &[u8], b: &[u8]) -> (r: bool)
    ensures
        r == (a@ == b@),
{
    if a.len() != b.len() {
        return false;
    }
    let r = starts_with_at(a, 0, b);
    assert(a@.subrange(0, a@.len() as int) =~= a@);
    r
}

/// The number that a string of decimal digits denotes, most significant
/// digit first.
pub open spec fn digits_value(d: Seq<u8>) -> int
    decreases d.len(),
{
    if d.len() == 0 {
        0
    } else {
        digits_value(d.drop_last()) * 10 + (d.last() - 0x30)
    }
}

/// Whether every byte of `d` is a decimal digit.
pub open spec fn all_digits(d: Seq<u8>) -> bool {
    forall|i: int| 0 <= i < d.len() ==> 0x30 <= #[trigger] d[i] <= 0x39
}

/// The text of an integer field without the `+` that may lead it.
pub open spec fn unsigned_plus(t: Seq<u8>) -> Seq<u8> {
    if t.len() > 0 && t[0] == 0x2b {
        t.subrange(1, t.len() as int)
    } else {
        t
    }
}

/// The number that the text of an integer field denotes, where the text is
/// well formed: an optional `+`, an optional `-`, then at least one decimal
/// digit; at most eleven bytes after the `+`; a value that an `i32` holds.
pub open spec fn int_text_value(t: Seq<u8>) -> Option<i32> {
    let body = unsigned_plus(t);
    let negative = body.len() > 0 && body[0] == 0x2d;
    let digits = if negative {
        body.subrange(1, body.len() as int)
    } else {
        body
    };
    let value = if negative {
        -digits_value(digits)
    } else {
        digits_value(digits)
    };
    if body.len() <= 11 && digits.len() >= 1 && all_digits(digits) && i32::MIN <= value
        <= i32::MAX {
        Some(value as i32)
    } else {
        None
    }
}

/// The largest number that `n` decimal digits can denote.
pub open spec fn digits_bound(n: nat) -> int
    decreases n,
{
    if n == 0 {
        0
    } else {
        digits_bound((n - 1) as nat) * 10 + 9
    }
}

proof fn lemma_digits_bound_monotone(a: nat, b: nat)
    requires
        a <= b,
    ensures
        0 <= digits_bound(a) <= digits_bound(b),
    decreases b,
{
    if a < b {
        lemma_digits_bound_monotone(a, (b - 1) as nat);
    } else if a > 0 {
        lemma_digits_bound_monotone((a - 1) as nat, (b - 1) as nat);
    }
}

proof fn lemma_digits_bound_eleven()
    ensures
        digits_bound(11) == 99_999_999_999,
{
    reveal_with_fuel(digits_bound, 12);
}

/// Reads the number that `text` denotes as an integer field.
#[verifier::loop_isolation(false)]
pub fn parse_int_text(text: &[u8]) -> (r: Option<i32>)
    ensures
        r == int_text_value(text@),
{
    let ghost t = text@;
    let start: usize = if text.len() > 0 && text[0] == 0x2b { 1 } else { 0 };
    let ghost body = unsigned_plus(t);
    assert(body =~= t.subrange(start as int, t.len() as int));
    if text.len() - start > 11 {
        return None;
    }
    let negative = text.len() > start && text[start] == 0x2d;
    let first: usize = if negative { start + 1 } else { start };
    let ghost digits = t.subrange(first as int, t.len() as int);
    assert(digits =~= if negative { body.subrange(1, body.len() as int) } else { body });
    if first >= text.len() {
        return None;
    }
    let mut acc: i64 = 0;
    let mut k: usize = first;
    while k < text.len()
        invariant
            first <= k <= text@.len(),
            text@.len() - first <= 11,
            t == text@,
            digits == t.subrange(first as int, t.len() as int),
            all_digits(t.subrange(first as int, k as int)),
            acc == digits_value(t.subrange(first as int, k as int)),
            0 <= acc <= digits_bound((k - first) as nat),
        decreases text@.len() - k,
    {
        let b = text[k];
        if b < 0x30 || b > 0x39 {
            assert(digits[k - first] == b);
            return None;
        }
        proof {
            let next = t.subrange(first as int, k + 1);
            assert(next.drop_last() =~= t.subrange(first as int, k as int));
            assert(next.last() == b);
            lemma_digits_bound_monotone((k - first) as nat, 11);
            lemma_digits_bound_eleven();
            assert forall|i: int| 0 <= i < next.len() implies 0x30 <= #[trigger] next[i]
                <= 0x39 by {
                if i < k - first {
                    assert(t.subrange(first as int, k as int)[i] == next[i]);
                }
            }
        }
        acc = acc * 10 + (b - 0x30) as i64;
        k += 1;
    }
    assert(t.subrange(first as int, k as int) =~= digits);
    proof {
        lemma_digits_bound_monotone((k - first) as nat, 11);
        lemma_digits_bound_eleven();
    }
    let value: i64 = if negative { -acc } else { acc };
    if value < -2147483648 || value > 2147483647 {
        None
    } else {
        Some(value as i32)
    }
}

/// `core::str::from_utf8`: the bytes as text where they are valid UTF-8,
/// nothing where they are not.
#[verifier::external_body]
fn utf8_text<'a>(bytes: &'a [u8]) -> (r: Option<&'a str>)
    ensures
        r is Some <==> valid_utf8(bytes@),
        r is Some ==> r.unwrap().spec_bytes() == bytes@,
{
    core::str::from_utf8(bytes).ok()
}

/// The empty text.
pub fn empty_text() -> (r: &'static str)
    ensures
        r.spec_bytes() == Seq::<u8>::empty(),
{
    let r = "";
    proof {
        reveal_strlit("");
        vstd::string::is_ascii_spec_bytes(r);
        assert(r.spec_bytes() =~= Seq::<u8>::empty());
    }
    r
}

/// Where a field that ends at `end` hands over to the next one: behind the
/// comma that may follow it and the spaces after that.
pub open spec fn field_end(s: Seq<u8>, end: int) -> int {
    let after = if 0 <= end < s.len() && s[end] == 0x2c {
        end + 1
    } else {
        end
    };
    run_end(s, after, ByteClass::Space)
}

/// The position of the quote that closes a quoted field opening at `at`:
/// the field is there where the byte at `at` is a double quote and another
/// one follows it.
pub open spec fn closing_quote(s: Seq<u8>, at: int) -> Option<int> {
    if 0 <= at < s.len() && s[at] == 0x22 && run_end(s, at + 1, ByteClass::Unquoted) < s.len() {
        Some(run_end(s, at + 1, ByteClass::Unquoted))
    } else {
        None
    }
}

/// A position in a reply together with the verdict on what was read so far.
#[derive(Clone, Copy, Debug, PartialEq, Eq, Structural)]
pub struct Cursor {
    /// Index of the next byte to read.
    pub at: usize,
    /// Whether everything read so far was well formed.
    pub valid: bool,
}

impl Cursor {
    /// The cursor before the first byte of a reply.
    pub open spec fn start() -> Cursor {
        Cursor { at: 0, valid: true }
    }

    /// This cursor, marked invalid.
    pub open spec fn fail(self) -> Cursor {
        Cursor { at: self.at, valid: false }
    }

    /// Whether the cursor is valid and stands within `s`.
    pub open spec fn live(self, s: Seq<u8>) -> bool {
        self.valid && self.at <= s.len()
    }

    /// The valid cursor at position `at`.
    pub open spec fn moved(at: int) -> Cursor {
        Cursor { at: at as usize, valid: true }
    }

    /// After a fixed text: `id` must stand at the cursor; the cursor moves
    /// behind it and behind the spaces that follow.
    pub open spec fn after_identifier(self, s: Seq<u8>, id: Seq<u8>) -> Cursor {
        if self.live(s) && has_prefix_at(s, self.at as int, id) {
            Cursor::moved(run_end(s, self.at + id.len(), ByteClass::Space))
        } else {
            self.fail()
        }
    }

    /// After a fixed text that may be missing. At the end of the input, and
    /// where another text of at least that length stands, the cursor stays.
    /// Where less input is left than `id` is long, the reply is malformed.
    pub open spec fn after_optional_identifier(self, s: Seq<u8>, id: Seq<u8>) -> Cursor {
        if !self.live(s) {
            self.fail()
        } else if self.at == s.len() {
            self
        } else if s.len() - self.at < id.len() {
            self.fail()
        } else if has_prefix_at(s, self.at as int, id) {
            Cursor::moved(run_end(s, self.at + id.len(), ByteClass::Space))
        } else {
            self
        }
    }

    /// After any run of ASCII whitespace.
    pub open spec fn after_whitespace(self, s: Seq<u8>) -> Cursor {
        if self.live(s) {
            Cursor::moved(run_end(s, self.at as int, ByteClass::Whitespace))
        } else {
            self.fail()
        }
    }

    /// After an integer field that may be empty: the run of digits and signs
    /// at the cursor, which must denote an `i32` unless it is empty, then an
    /// optional comma and spaces. The value is `None` for an empty field and
    /// for a malformed reply.
    pub open spec fn after_optional_integer(self, s: Seq<u8>) -> (Cursor, Option<i32>) {
        let end = run_end(s, self.at as int, ByteClass::IntegerText);
        if !self.live(s) {
            (self.fail(), None)
        } else if end == self.at {
            (Cursor::moved(field_end(s, end)), None)
        } else {
            match int_text_value(s.subrange(self.at as int, end)) {
                Some(value) => (Cursor::moved(field_end(s, end)), Some(value)),
                None => (self.fail(), None),
            }
        }
    }

    /// After an integer field: as `after_optional_integer`, but an empty field is
    /// malformed. The value is 0 for a malformed reply.
    pub open spec fn after_integer(self, s: Seq<u8>) -> (Cursor, i32) {
        match self.after_optional_integer(s).1 {
            Some(value) => (self.after_optional_integer(s).0, value),
            None => (self.fail(), 0),
        }
    }

    /// After a line of text: the run of bytes at the cursor that are not
    /// ASCII control characters, which must be valid UTF-8. The text is empty
    /// for a malformed reply.
    pub open spec fn after_text(self, s: Seq<u8>) -> (Cursor, Seq<u8>) {
        let end = run_end(s, self.at as int, ByteClass::Printable);
        if self.live(s) && valid_utf8(s.subrange(self.at as int, end)) {
            (Cursor::moved(end), s.subrange(self.at as int, end))
        } else {
            (self.fail(), Seq::empty())
        }
    }

    /// After a quoted field that may be missing: where a quoted text stands
    /// at the cursor, it must be valid UTF-8 and is the value, without its
    /// quotes; where none does, the value is `None`. Either way an optional
    /// comma and spaces follow.
    pub open spec fn after_optional_quoted(self, s: Seq<u8>) -> (Cursor, Option<Seq<u8>>) {
        if !self.live(s) {
            (self.fail(), None)
        } else {
            match closing_quote(s, self.at as int) {
                None => (Cursor::moved(field_end(s, self.at as int)), None),
                Some(close) => if valid_utf8(s.subrange(self.at + 1, close)) {
                    (Cursor::moved(field_end(s, close + 1)), Some(s.subrange(self.at + 1, close)))
                } else {
                    (self.fail(), None)
                },
            }
        }
    }

    /// After a quoted field: as `after_optional_quoted`, but a missing field
    /// is malformed. The text is empty for a malformed reply.
    pub open spec fn after_quoted(self, s: Seq<u8>) -> (Cursor, Seq<u8>) {
        match self.after_optional_quoted(s).1 {
            Some(text) => (self.after_optional_quoted(s).0, text),
            None => (self.fail(), Seq::empty()),
        }
    }

    /// The cursor before the first byte of a reply.
    pub fn new() -> (r: Cursor)
        ensures
            r == Cursor::start(),
    {
        Cursor { at: 0, valid: true }
    }

    fn failed(self) -> (r: Cursor)
        ensures
            r == self.fail(),
    {
        Cursor { at: self.at, valid: false }
    }

    fn skip_spaces(data: &[u8], from: usize) -> (r: Cursor)
        requires
            from <= data@.len(),
        ensures
            r == Cursor::moved(run_end(data@, from as int, ByteClass::Space)),
            r.at <= data@.len(),
    {
        let at = scan_run(data, from, ByteClass::Space);
        Cursor { at, valid: true }
    }

    fn end_field(data: &[u8], end: usize) -> (r: Cursor)
        requires
            end <= data@.len(),
        ensures
            r == Cursor::moved(field_end(data@, end as int)),
            r.at <= data@.len(),
    {
        let after: usize = if end < data.len() && data[end] == 0x2c { end + 1 } else { end };
        Cursor::skip_spaces(data, after)
    }

    /// Reads the fixed text `id`.
    pub fn identifier(self, data: &[u8], id: &[u8]) -> (r: Cursor)
        ensures
            r == self.after_identifier(data@, id@),
            r.at <= data@.len() || !r.valid,
    {
        if !self.valid || self.at > data.len() {
            return self.failed();
        }
        if starts_with_at(data, self.at, id) {
            Cursor::skip_spaces(data, self.at + id.len())
        } else {
            self.failed()
        }
    }

    /// Reads the fixed text `id` where it is there.
    pub fn optional_identifier(self, data: &[u8], id: &[u8]) -> (r: Cursor)
        ensures
            r == self.after_optional_identifier(data@, id@),
            r.at <= data@.len() || !r.valid,
    {
        if !self.valid || self.at > data.len() {
            return self.failed();
        }
        if self.at == data.len() {
            return self;
        }
        if data.len() - self.at < id.len() {
            return self.failed();
        }
        if starts_with_at(data, self.at, id) {
            Cursor::skip_spaces(data, self.at + id.len())
        } else {
            self
        }
    }

    /// Skips ASCII whitespace.
    pub fn whitespace(self, data: &[u8]) -> (r: Cursor)
        ensures
            r == self.after_whitespace(data@),
            r.at <= data@.len() || !r.valid,
    {
        if !self.valid || self.at > data.len() {
            return self.failed();
        }
        let at = scan_run(data, self.at, ByteClass::Whitespace);
        Cursor { at, valid: true }
    }

    /// Reads an integer field that may be empty.
    pub fn optional_integer(self, data: &[u8]) -> (r: (Cursor, Option<i32>))
        ensures
            r == self.after_optional_integer(data@),
            r.0.at <= data@.len() || !r.0.valid,
    {
        if !self.valid || self.at > data.len() {
            return (self.failed(), None);
        }
        let end = scan_run(data, self.at, ByteClass::IntegerText);
        if end == self.at {
            return (Cursor::end_field(data, end), None);
        }
        match parse_int_text(vstd::slice::slice_subrange(data, self.at, end)) {
            Some(value) => (Cursor::end_field(data, end), Some(value)),
            None => (self.failed(), None),
        }
    }

    /// Reads an integer field.
    pub fn integer(self, data: &[u8]) -> (r: (Cursor, i32))
        ensures
            r == self.after_integer(data@),
            r.0.at <= data@.len() || !r.0.valid,
    {
        let (next, value) = self.optional_integer(data);
        match value {
            Some(value) => (next, value),
            None => (self.failed(), 0),
        }
    }

    /// Reads a line of text.
    pub fn text<'a>(self, data: &'a [u8]) -> (r: (Cursor, &'a str))
        ensures
            r.0 == self.after_text(data@).0,
            r.1.spec_bytes() == self.after_text(data@).1,
            r.0.at <= data@.len() || !r.0.valid,
    {
        if !self.valid || self.at > data.len() {
            return (self.failed(), empty_text());
        }
        let end = scan_run(data, self.at, ByteClass::Printable);
        match utf8_text(vstd::slice::slice_subrange(data, self.at, end)) {
            Some(text) => (Cursor { at: end, valid: true }, text),
            None => (self.failed(), empty_text()),
        }
    }

    /// Reads a quoted field that may be missing.
    pub fn optional_quoted<'a>(self, data: &'a [u8]) -> (r: (Cursor, Option<&'a str>))
        ensures
            r.0 == self.after_optional_quoted(data@).0,
            r.1 is Some == self.after_optional_quoted(data@).1 is Some,
            r.1 is Some ==> r.1.unwrap().spec_bytes() == self.after_optional_quoted(
                data@,
            ).1.unwrap(),
            r.0.at <= data@.len() || !r.0.valid,
    {
        if !self.valid || self.at > data.len() {
            return (self.failed(), None);
        }
        if self.at == data.len() || data[self.at] != 0x22 {
            return (Cursor::end_field(data, self.at), None);
        }
        let close = scan_run(data, self.at + 1, ByteClass::Unquoted);
        if close >= data.len() {
            return (Cursor::end_field(data, self.at), None);
        }
        match utf8_text(vstd::slice::slice_subrange(data, self.at + 1, close)) {
            Some(text) => (Cursor::end_field(data, close + 1), Some(text)),
            None => (self.failed(), None),
        }
    }

    /// Reads a quoted field.
    pub fn quoted<'a>(self, data: &'a [u8]) -> (r: (Cursor, &'a str))
        ensures
            r.0 == self.after_quoted(data@).0,
            r.1.spec_bytes() == self.after_quoted(data@).1,
            r.0.at <= data@.len() || !r.0.valid,
    {
        let (next, value) = self.optional_quoted(data);
        match value {
            Some(text) => (next, text),
            None => (self.failed(), empty_text()),
        }
    }
}

/// `text` in a field of `n` bytes: the bytes of `text` that fit, then zeros.
pub open spec fn zero_padded(text: Seq<u8>, n: nat) -> Seq<u8> {
    Seq::new(
        n,
        |i: int|
            if i < text.len() {
                text[i]
            } else {
                0u8
            },
    )
}

/// Writes the bytes of `text` that fit over the start of `field`, and zeros
/// over the rest.
pub fn fill_padded(field: &mut [u8], text: &[u8])
    ensures
        final(field)@ == zero_padded(text@, old(field)@.len()),
{
    let n = field.len();
    let mut k: usize = 0;
    while k < n
        invariant
            k <= n,
            field@.len() == n,
            forall|i: int| 0 <= i < k ==> field@[i] == zero_padded(text@, n as nat)[i],
        decreases n - k,
    {
        let byte: u8 = if k < text.len() { text[k] } else { 0 };
        field[k] = byte;
        k += 1;
    }
    assert(field@ =~= zero_padded(text@, n as nat));
}

} // verus!
