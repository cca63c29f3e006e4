//! Command lines, built in a caller's scratch buffer by the `at_commands`
//! builder.
//!
//! A command line is `AT`, the command's name, a suffix that tells the kind
//! of command (`=?` test, `?` query, `=` set, nothing for execute), for a set
//! command its comma-separated parameters, and CR LF.

use vstd::prelude::*;
use at_commands::builder::CommandBuilder;
use vstd::string::StringSliceAdditionalSpecFns;
use crate::wire::{all_digits, digits_value, int_text_value, unsigned_plus};

verus! {

/// `at_commands::builder::Set`: the marker of a builder of a set command.
#[verifier::external_type_specification]
#[verifier::external_body]
pub struct ExSetStage(at_commands::builder::Set);

/// `at_commands::builder::CommandBuilder`: a command under construction in
/// a buffer that it borrows.
#[verifier::external_type_specification]
#[verifier::external_body]
#[verifier::reject_recursive_types(STAGE)]
pub struct ExCommandBuilder<'a, STAGE>(CommandBuilder<'a, STAGE>);

/// The bytes that a builder of a set command was handed so far, whether
/// or not its buffer had room for them.
pub uninterp spec fn set_builder_text(b: CommandBuilder<'_, at_commands::builder::Set>) -> Seq<u8>;

/// The length of the buffer that a builder of a set command was made with.
pub uninterp spec fn set_builder_capacity(b: CommandBuilder<'_, at_commands::builder::Set>) -> nat;

/// The two bytes that end a line.
pub open spec fn crlf() -> Seq<u8> {
    seq![0x0du8, 0x0au8]
}

/// What leads a command line: `AT` where the prefix is asked for.
pub open spec fn at_prefix_text(at_prefix: bool) -> Seq<u8> {
    if at_prefix {
        seq![0x41u8, 0x54u8]
    } else {
        Seq::empty()
    }
}

/// The decimal digits of `n`, most significant first.
pub open spec fn decimal_digits(n: nat) -> Seq<u8>
    decreases n,
{
    if n < 10 {
        seq![(0x30 + n) as u8]
    } else {
        decimal_digits(n / 10).push((0x30 + n % 10) as u8)
    }
}

/// `value` in decimal, with a leading `-` where it is negative.
pub open spec fn decimal_text(value: int) -> Seq<u8> {
    if value < 0 {
        seq![0x2du8] + decimal_digits((-value) as nat)
    } else {
        decimal_digits(value as nat)
    }
}

/// The lower-case hexadecimal digit for a value below 16.
pub open spec fn hex_digit(nibble: int) -> u8 {
    if nibble < 10 {
        (0x30 + nibble) as u8
    } else {
        (0x61 + nibble - 10) as u8
    }
}

/// `bytes` in hexadecimal: two lower-case digits for each byte, the high
/// half first.
pub open spec fn hex_text(bytes: Seq<u8>) -> Seq<u8>
    decreases bytes.len(),
{
    if bytes.len() == 0 {
        Seq::empty()
    } else {
        hex_text(bytes.drop_last()).push(hex_digit(bytes.last() as int / 16)).push(
            hex_digit(bytes.last() as int % 16),
        )
    }
}

/// A string parameter: the value between double quotes, then a comma.
pub open spec fn string_parameter(value: Seq<u8>) -> Seq<u8> {
    seq![0x22u8] + value + seq![0x22u8, 0x2cu8]
}

/// An integer parameter: the value in decimal, then a comma.
pub open spec fn int_parameter(value: int) -> Seq<u8> {
    decimal_text(value).push(0x2cu8)
}

/// A string parameter that may be left out: a lone comma where it is.
pub open spec fn optional_string_parameter(value: Option<Seq<u8>>) -> Seq<u8> {
    match value {
        Some(value) => string_parameter(value),
        None => seq![0x2cu8],
    }
}

/// A parameter of raw bytes: the value in hexadecimal, then a comma.
pub open spec fn hex_parameter(value: Seq<u8>) -> Seq<u8> {
    hex_text(value).push(0x2cu8)
}

/// The command text without the comma that the last parameter left behind.
/// The comma is only taken off where the whole text found room in the
/// buffer.
pub open spec fn without_trailing_comma(text: Seq<u8>, capacity: nat) -> Seq<u8> {
    if 0 < text.len() <= capacity && text.last() == 0x2cu8 {
        text.drop_last()
    } else {
        text
    }
}

/// What finishing a command gives: the line, where the buffer holds it, and
/// otherwise the length that was counted for it.
pub open spec fn finished(text: Seq<u8>, capacity: nat) -> Result<Seq<u8>, usize> {
    let line = without_trailing_comma(text, capacity) + crlf();
    if text.len() + 2 > usize::MAX {
        Err(usize::MAX)
    } else if line.len() <= capacity {
        Ok(line)
    } else {
        Err(line.len() as usize)
    }
}

/// Whether an encoder's result `r` is the outcome `expected`.
pub open spec fn is_outcome(r: Result<&[u8], usize>, expected: Result<Seq<u8>, usize>) -> bool {
    match (r, expected) {
        (Ok(line), Ok(text)) => line@ == text,
        (Err(n), Err(m)) => n == m,
        _ => false,
    }
}

/// The text of a test command before it is finished.
pub open spec fn test_text(name: Seq<u8>) -> Seq<u8> {
    at_prefix_text(true) + name + seq![0x3du8, 0x3fu8]
}

/// The text of a query command before it is finished.
pub open spec fn query_text(name: Seq<u8>) -> Seq<u8> {
    at_prefix_text(true) + name + seq![0x3fu8]
}

/// The text of an execute command before it is finished.
pub open spec fn execute_text(name: Seq<u8>) -> Seq<u8> {
    at_prefix_text(true) + name
}

/// The text of a set command before its first parameter.
pub open spec fn set_text(name: Seq<u8>) -> Seq<u8> {
    at_prefix_text(true) + name + seq![0x3du8]
}

/// `CommandBuilder::create_test`, `named` and `finish`: the builder writes
/// the prefix, the name and `=?`, then finishes the line.
#[verifier::external_body]
fn build_test<'a>(buffer: &'a mut [u8], at_prefix: bool, name: &[u8]) -> (r: Result<
    &'a [u8],
    usize,
>)
    requires
        name@.len() + 6 <= usize::MAX,
    ensures
        is_outcome(
            r,
            finished(
                at_prefix_text(at_prefix) + name@ + seq![0x3du8, 0x3fu8],
                old(buffer)@.len(),
            ),
        ),
{
    CommandBuilder::create_test(buffer, at_prefix).named(name).finish()
}

/// `CommandBuilder::create_query`, `named` and `finish`: the builder writes
/// the prefix, the name and `?`, then finishes the line.
#[verifier::external_body]
fn build_query<'a>(buffer: &'a mut [u8], at_prefix: bool, name: &[u8]) -> (r: Result<
    &'a [u8],
    usize,
>)
    requires
        name@.len() + 5 <= usize::MAX,
    ensures
        is_outcome(
            r,
            finished(at_prefix_text(at_prefix) + name@ + seq![0x3fu8], old(buffer)@.len()),
        ),
{
    CommandBuilder::create_query(buffer, at_prefix).named(name).finish()
}

/// `CommandBuilder::create_execute`, `named` and `finish`: the builder writes
/// the prefix and the name, then finishes the line. With neither prefix nor
/// name the builder's index would underflow.
#[verifier::external_body]
fn build_execute<'a>(buffer: &'a mut [u8], at_prefix: bool, name: &[u8]) -> (r: Result<
    &'a [u8],
    usize,
>)
    requires
        name@.len() + 4 <= usize::MAX,
        at_prefix || name@.len() > 0,
    ensures
        is_outcome(r, finished(at_prefix_text(at_prefix) + name@, old(buffer)@.len())),
{
    CommandBuilder::create_execute(buffer, at_prefix).named(name).finish()
}

/// `CommandBuilder::create_set` and `named`: a builder over `buffer` that
/// was handed the prefix, the name and `=`.
#[verifier::external_body]
fn build_set<'a>(buffer: &'a mut [u8], at_prefix: bool, name: &[u8]) -> (b: CommandBuilder<
    'a,
    at_commands::builder::Set,
>)
    requires
        name@.len() + 3 <= usize::MAX,
    ensures
        set_builder_text(b) == at_prefix_text(at_prefix) + name@ + seq![0x3du8],
        set_builder_capacity(b) == old(buffer)@.len(),
{
    CommandBuilder::create_set(buffer, at_prefix).named(name)
}

/// `CommandBuilder::with_int_parameter`: hands the builder the value in
/// decimal and a comma.
#[verifier::external_body]
fn with_int_parameter<'a>(b: CommandBuilder<'a, at_commands::builder::Set>, value: i32) -> (r:
    CommandBuilder<'a, at_commands::builder::Set>)
    requires
        set_builder_text(b).len() + int_parameter(value as int).len() <= usize::MAX,
    ensures
        set_builder_text(r) == set_builder_text(b) + int_parameter(value as int),
        set_builder_capacity(r) == set_builder_capacity(b),
{
    b.with_int_parameter(value)
}

/// `CommandBuilder::with_string_parameter`: hands the builder the value
/// between double quotes and a comma.
#[verifier::external_body]
fn with_string_parameter<'a>(
    b: CommandBuilder<'a, at_commands::builder::Set>,
    value: &[u8],
) -> (r: CommandBuilder<'a, at_commands::builder::Set>)
    requires
        set_builder_text(b).len() + value@.len() + 3 <= usize::MAX,
    ensures
        set_builder_text(r) == set_builder_text(b) + string_parameter(value@),
        set_builder_capacity(r) == set_builder_capacity(b),
{
    b.with_string_parameter(value)
}

/// `CommandBuilder::with_optional_string_parameter`: as
/// `with_string_parameter` for a value, a lone comma for none.
#[verifier::external_body]
fn with_optional_string_parameter<'a>(
    b: CommandBuilder<'a, at_commands::builder::Set>,
    value: Option<&[u8]>,
) -> (r: CommandBuilder<'a, at_commands::builder::Set>)
    requires
        value is Some ==> set_builder_text(b).len() + value.unwrap()@.len() + 3 <= usize::MAX,
        value is None ==> set_builder_text(b).len() + 1 <= usize::MAX,
    ensures
        set_builder_text(r) == set_builder_text(b) + optional_string_parameter(
            match value {
                Some(value) => Some(value@),
                None => None,
            },
        ),
        set_builder_capacity(r) == set_builder_capacity(b),
{
    b.with_optional_string_parameter(value)
}

/// `CommandBuilder::with_rax_hex_parameter`: hands the builder two
/// lower-case hexadecimal digits for each byte of the value, and a comma.
#[verifier::external_body]
fn with_hex_parameter<'a>(b: CommandBuilder<'a, at_commands::builder::Set>, value: &[u8]) -> (r:
    CommandBuilder<'a, at_commands::builder::Set>)
    requires
        set_builder_text(b).len() + 2 * value@.len() + 1 <= usize::MAX,
    ensures
        set_builder_text(r) == set_builder_text(b) + hex_parameter(value@),
        set_builder_capacity(r) == set_builder_capacity(b),
{
    b.with_rax_hex_parameter(value)
}

/// `CommandBuilder::finish`: takes the last parameter's comma off where
/// the text found room in the buffer, adds CR LF, and returns the line where
/// the buffer holds it, else the length counted.
#[verifier::external_body]
fn finish_set<'a>(b: CommandBuilder<'a, at_commands::builder::Set>) -> (r: Result<
    &'a [u8],
    usize,
>)
    requires
        set_builder_text(b).len() + 2 <= usize::MAX,
    ensures
        is_outcome(r, finished(set_builder_text(b), set_builder_capacity(b))),
{
    b.finish()
}

/// Encodes the test command `AT<name>=?` into `buffer`.
pub fn test_command<'a>(buffer: &'a mut [u8], name: &str) -> (r: Result<&'a [u8], usize>)
    ensures
        is_outcome(r, finished(test_text(name.spec_bytes()), old(buffer)@.len())),
{
    let name = name.as_bytes();
    if name.len() > usize::MAX - 6 {
        return Err(usize::MAX);
    }
    build_test(buffer, true, name)
}

/// Encodes the query command `AT<name>?` into `buffer`.
pub fn query_command<'a>(buffer: &'a mut [u8], name: &str) -> (r: Result<&'a [u8], usize>)
    ensures
        is_outcome(r, finished(query_text(name.spec_bytes()), old(buffer)@.len())),
{
    let name = name.as_bytes();
    if name.len() > usize::MAX - 5 {
        return Err(usize::MAX);
    }
    build_query(buffer, true, name)
}

/// Encodes the execute command `AT<name>` into `buffer`.
pub fn execute_command<'a>(buffer: &'a mut [u8], name: &str) -> (r: Result<&'a [u8], usize>)
    ensures
        is_outcome(r, finished(execute_text(name.spec_bytes()), old(buffer)@.len())),
{
    let name = name.as_bytes();
    if name.len() > usize::MAX - 4 {
        return Err(usize::MAX);
    }
    build_execute(buffer, true, name)
}

/// The number of bytes that `value` takes in decimal, sign included.
pub fn decimal_len(value: i32) -> (n: usize)
    ensures
        n == decimal_text(value as int).len(),
        1 <= n <= 11,
{
    let magnitude: i64 = if value < 0 { -(value as i64) } else { value as i64 };
    let mut rest: i64 = magnitude;
    let mut n: usize = if value < 0 { 2 } else { 1 };
    let ghost sign: int = if value < 0 { 1 } else { 0 };
    while rest >= 10
        invariant
            0 <= rest <= magnitude <= 2147483648,
            decimal_digits(magnitude as nat).len() + sign == decimal_digits(rest as nat).len()
                + n - 1,
            n + rest <= magnitude + 2,
            n >= 1,
        decreases rest,
    {
        rest = rest / 10;
        n += 1;
    }
    proof {
        lemma_decimal_digits_len(magnitude as nat);
    }
    n
}

proof fn lemma_decimal_digits_len(n: nat)
    ensures
        1 <= decimal_digits(n).len(),
        n <= 9_999_999_999 ==> decimal_digits(n).len() <= 10,
{
    reveal_with_fuel(decimal_digits, 11);
}

/// `hex_text` writes two digits for each byte.
pub proof fn lemma_hex_text_len(bytes: Seq<u8>)
    ensures
        hex_text(bytes).len() == 2 * bytes.len(),
    decreases bytes.len(),
{
    if bytes.len() > 0 {
        lemma_hex_text_len(bytes.drop_last());
    }
}

/// A set command under construction in a caller's buffer.
pub struct SetCommand<'a> {
    builder: Option<CommandBuilder<'a, at_commands::builder::Set>>,
    length: usize,
    text: Ghost<Seq<u8>>,
    capacity: Ghost<nat>,
}

impl<'a> SetCommand<'a> {
    #[verifier::type_invariant]
    spec fn well_formed(self) -> bool {
        match self.builder {
            Some(b) => {
                &&& set_builder_text(b) == self.text@
                &&& set_builder_capacity(b) == self.capacity@
                &&& self.length == self.text@.len()
                &&& self.length + 2 <= usize::MAX
            },
            None => self.text@.len() + 2 > usize::MAX,
        }
    }

    /// The text of the command so far: prefix, name, `=`, and each
    /// parameter with the comma behind it.
    pub closed spec fn text(self) -> Seq<u8> {
        self.text@
    }

    /// The length of the buffer the command is built in.
    pub closed spec fn capacity(self) -> nat {
        self.capacity@
    }

    /// Starts the set command `AT<name>=` in `buffer`.
    pub fn begin(buffer: &'a mut [u8], name: &str) -> (r: Self)
        ensures
            r.text() == set_text(name.spec_bytes()),
            r.capacity() == old(buffer)@.len(),
    {
        let name = name.as_bytes();
        let ghost text = set_text(name@);
        let ghost capacity = buffer@.len();
        if name.len() > usize::MAX - 5 {
            SetCommand { builder: None, length: 0, text: Ghost(text), capacity: Ghost(capacity) }
        } else {
            let length = name.len() + 3;
            SetCommand {
                builder: Some(build_set(buffer, true, name)),
                length,
                text: Ghost(text),
                capacity: Ghost(capacity),
            }
        }
    }

    /// Adds an integer parameter.
    pub fn integer(self, value: i32) -> (r: Self)
        ensures
            r.text() == self.text() + int_parameter(value as int),
            r.capacity() == self.capacity(),
    {
        proof {
            use_type_invariant(&self);
        }
        let added = decimal_len(value) + 1;
        let ghost text = self.text@ + int_parameter(value as int);
        match self.builder {
            Some(b) if self.length <= usize::MAX - 2 - added => SetCommand {
                builder: Some(with_int_parameter(b, value)),
                length: self.length + added,
                text: Ghost(text),
                capacity: self.capacity,
            },
            _ => SetCommand {
                builder: None,
                length: 0,
                text: Ghost(text),
                capacity: self.capacity,
            },
        }
    }

    /// Adds a string parameter.
    pub fn string(self, value: &[u8]) -> (r: Self)
        ensures
            r.text() == self.text() + string_parameter(value@),
            r.capacity() == self.capacity(),
    {
        proof {
            use_type_invariant(&self);
        }
        let ghost text = self.text@ + string_parameter(value@);
        match self.builder {
            Some(b) if value.len() <= usize::MAX - 5 && self.length <= usize::MAX - 5
                - value.len() => SetCommand {
                builder: Some(with_string_parameter(b, value)),
                length: self.length + value.len() + 3,
                text: Ghost(text),
                capacity: self.capacity,
            },
            _ => SetCommand {
                builder: None,
                length: 0,
                text: Ghost(text),
                capacity: self.capacity,
            },
        }
    }

    /// Adds a string parameter that may be left out.
    pub fn optional_string(self, value: Option<&[u8]>) -> (r: Self)
        ensures
            r.text() == self.text() + optional_string_parameter(
                match value {
                    Some(value) => Some(value@),
                    None => None,
                },
            ),
            r.capacity() == self.capacity(),
    {
        proof {
            use_type_invariant(&self);
        }
        let ghost added = optional_string_parameter(
            match value {
                Some(value) => Some(value@),
                None => None,
            },
        );
        let ghost text = self.text@ + added;
        let size: Option<usize> = match value {
            Some(value) => if value.len() <= usize::MAX - 5 {
                Some(value.len() + 3)
            } else {
                None
            },
            None => Some(1),
        };
        match (self.builder, size) {
            (Some(b), Some(size)) if self.length <= usize::MAX - 2 - size => SetCommand {
                builder: Some(with_optional_string_parameter(b, value)),
                length: self.length + size,
                text: Ghost(text),
                capacity: self.capacity,
            },
            _ => SetCommand {
                builder: None,
                length: 0,
                text: Ghost(text),
                capacity: self.capacity,
            },
        }
    }

    /// Adds a parameter of raw bytes, written in hexadecimal.
    pub fn hex(self, value: &[u8]) -> (r: Self)
        ensures
            r.text() == self.text() + hex_parameter(value@),
            r.capacity() == self.capacity(),
    {
        proof {
            use_type_invariant(&self);
            lemma_hex_text_len(value@);
        }
        let ghost text = self.text@ + hex_parameter(value@);
        match self.builder {
            Some(b) if value.len() <= (usize::MAX - 3) / 2 && self.length <= usize::MAX - 3 - 2
                * value.len() => SetCommand {
                builder: Some(with_hex_parameter(b, value)),
                length: self.length + 2 * value.len() + 1,
                text: Ghost(text),
                capacity: self.capacity,
            },
            _ => SetCommand {
                builder: None,
                length: 0,
                text: Ghost(text),
                capacity: self.capacity,
            },
        }
    }

    /// Finishes the command: the line where the buffer holds it, else the
    /// length that was counted for it.
    pub fn finish(self) -> (r: Result<&'a [u8], usize>)
        ensures
            is_outcome(r, finished(self.text(), self.capacity())),
    {
        proof {
            use_type_invariant(&self);
        }
        match self.builder {
            Some(b) => finish_set(b),
            None => Err(usize::MAX),
        }
    }
}

proof fn lemma_decimal_digits_value(n: nat)
    ensures
        all_digits(decimal_digits(n)),
        digits_value(decimal_digits(n)) == n,
        decimal_digits(n).len() >= 1,
        decimal_digits(n)[0] != 0x2bu8 && decimal_digits(n)[0] != 0x2du8,
    decreases n,
{
    if n >= 10 {
        lemma_decimal_digits_value(n / 10);
        let shorter = decimal_digits(n / 10);
        let digits = decimal_digits(n);
        assert(digits.drop_last() =~= shorter);
        assert(digits[0] == shorter[0]);
        assert(digits.last() == 0x30 + n % 10);
        assert(digits_value(digits) == digits_value(shorter) * 10 + (digits.last() - 0x30));
        assert forall|i: int| 0 <= i < digits.len() implies 0x30 <= #[trigger] digits[i]
            <= 0x39 by {
            if i < shorter.len() {
                assert(digits[i] == shorter[i]);
            }
        }
    } else {
        let digits = decimal_digits(n);
        assert(digits.drop_last() =~= Seq::<u8>::empty());
        assert(digits.last() == 0x30 + n);
        assert(digits_value(digits) == digits_value(digits.drop_last()) * 10 + (digits.last()
            - 0x30));
    }
}

/// A number that was written as an integer parameter is read back as the
/// same number: the text that the builder writes for a value is an integer
/// field that denotes the value.
pub proof fn lemma_decimal_round_trip(value: i32)
    ensures
        int_text_value(decimal_text(value as int)) == Some(value),
{
    let text = decimal_text(value as int);
    if value < 0 {
        let magnitude = (-(value as int)) as nat;
        lemma_decimal_digits_value(magnitude);
        lemma_decimal_digits_len(magnitude);
        assert(unsigned_plus(text) == text);
        assert(text.subrange(1, text.len() as int) =~= decimal_digits(magnitude));
    } else {
        lemma_decimal_digits_value(value as nat);
        lemma_decimal_digits_len(value as nat);
        assert(unsigned_plus(text) == text);
    }
}

} // verus!
