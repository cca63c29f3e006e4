//! Data that arrived on a socket: `+CSONMI`.

use vstd::prelude::*;
use vstd::string::StringSliceAdditionalSpecFns;
use crate::at_command::receive::UnsolicitedMessage;
use crate::at_command::{fails_with, handle_of, to_handle};
use crate::bounded::{BoundedBytes, BYTE_STORE_SIZE};
use crate::builder::{hex_digit, hex_text, lemma_hex_text_len};
use crate::wire::Cursor;
use crate::AtError;

verus! {

/// The largest number of bytes that one message can bring.
pub const MAX_SOCKET_RECEPTION_SIZE: usize = BYTE_STORE_SIZE;

/// The data that arrived on a socket.
#[derive(Debug)]
pub struct SocketDataReception {
    /// The socket that the data arrived on.
    pub socket_id: u8,
    /// The data.
    pub data: BoundedBytes,
}

/// Whether `x` is a hexadecimal digit, in either case.
pub open spec fn is_hex_digit(x: u8) -> bool {
    (0x30 <= x <= 0x39) || (0x61 <= x <= 0x66) || (0x41 <= x <= 0x46)
}

/// The value of the hexadecimal digit `x`.
pub open spec fn nibble_of(x: u8) -> u8 {
    if 0x30 <= x <= 0x39 {
        (x - 0x30) as u8
    } else if 0x61 <= x <= 0x66 {
        (x - 0x61 + 10) as u8
    } else {
        (x - 0x41 + 10) as u8
    }
}

/// Whether `text` is made of hexadecimal digits, two for each byte.
pub open spec fn is_hex(text: Seq<u8>) -> bool {
    text.len() % 2 == 0 && forall|i: int| 0 <= i < text.len() ==> is_hex_digit(#[trigger] text[i])
}

/// The bytes that the hexadecimal text `text` stands for: each pair of
/// digits is a byte, the high half first.
pub open spec fn bytes_of_hex(text: Seq<u8>) -> Seq<u8> {
    Seq::new(
        text.len() / 2,
        |i: int| (nibble_of(text[2 * i]) * 16 + nibble_of(text[2 * i + 1])) as u8,
    )
}

/// Gives the value of the hexadecimal digit `x`.
pub fn hex_to_nibble(x: u8) -> (r: u8)
    requires
        is_hex_digit(x),
    ensures
        r == nibble_of(x),
        r < 16,
{
    if 0x30 <= x && x <= 0x39 {
        x - 0x30
    } else if 0x61 <= x && x <= 0x66 {
        x - 0x61 + 10
    } else {
        x - 0x41 + 10
    }
}

/// Tells whether `x` is a hexadecimal digit.
pub fn hex_digit_holds(x: u8) -> (r: bool)
    ensures
        r == is_hex_digit(x),
{
    (0x30 <= x && x <= 0x39) || (0x61 <= x && x <= 0x66) || (0x41 <= x && x <= 0x46)
}

proof fn lemma_hex_text_index(bytes: Seq<u8>, i: int)
    requires
        0 <= i < bytes.len(),
    ensures
        hex_text(bytes).len() == 2 * bytes.len(),
        hex_text(bytes)[2 * i] == hex_digit(bytes[i] as int / 16),
        hex_text(bytes)[2 * i + 1] == hex_digit(bytes[i] as int % 16),
    decreases bytes.len(),
{
    lemma_hex_text_len(bytes);
    lemma_hex_text_len(bytes.drop_last());
    if i < bytes.len() - 1 {
        lemma_hex_text_index(bytes.drop_last(), i);
    }
}

/// Bytes that were written in hexadecimal are read back unchanged.
pub proof fn lemma_hex_round_trip(bytes: Seq<u8>)
    ensures
        is_hex(hex_text(bytes)),
        bytes_of_hex(hex_text(bytes)) == bytes,
{
    let text = hex_text(bytes);
    lemma_hex_text_len(bytes);
    assert forall|j: int| 0 <= j < text.len() implies is_hex_digit(#[trigger] text[j]) by {
        lemma_hex_text_index(bytes, j / 2);
    }
    assert forall|i: int| 0 <= i < bytes.len() implies #[trigger] bytes_of_hex(text)[i]
        == bytes[i] by {
        lemma_hex_text_index(bytes, i);
    }
    assert(bytes_of_hex(text) =~= bytes);
}

/// The fields of a `+CSONMI` message.
pub struct ReceptionFields {
    /// Whether the message is well formed.
    pub valid: bool,
    /// The socket, as a number.
    pub socket_id: i32,
    /// The number of hexadecimal digits that the message announces.
    pub length: i32,
    /// The data, in hexadecimal.
    pub text: Seq<u8>,
}

impl SocketDataReception {
    /// Reads a message: after any whitespace, `+CSONMI: `, any whitespace,
    /// the socket, the announced length, and the data in hexadecimal up
    /// to the end of the line.
    pub open spec fn fields_of(data: Seq<u8>) -> ReceptionFields {
        let socket_id = Cursor::start().after_whitespace(data).after_identifier(
            data,
            "+CSONMI: ".spec_bytes(),
        ).after_whitespace(data).after_integer(data);
        let length = socket_id.0.after_integer(data);
        let text = length.0.after_text(data);
        ReceptionFields {
            valid: text.0.valid,
            socket_id: socket_id.1,
            length: length.1,
            text: text.1,
        }
    }

    /// The payload for a reader that expects data on the socket
    /// `socket_id`: the data where the message is for that socket, and an
    /// I/O error where it is for another.
    pub fn payload_for(&self, socket_id: u8) -> (r: Result<&[u8], AtError>)
        ensures
            match r {
                Ok(payload) => self.socket_id == socket_id && payload@ == self.data@,
                Err(e) => self.socket_id != socket_id && e == AtError::IOError,
            },
    {
        if self.socket_id != socket_id {
            return Err(AtError::IOError);
        }
        Ok(self.data.as_slice())
    }
}

fn decode_hex(text: &[u8]) -> (r: Result<BoundedBytes, AtError>)
    ensures
        match r {
            Ok(bytes) => is_hex(text@) && text@.len() / 2 <= BYTE_STORE_SIZE && bytes@
                == bytes_of_hex(text@),
            Err(e) => if is_hex(text@) {
                text@.len() / 2 > BYTE_STORE_SIZE && e == AtError::CapacityError
            } else {
                e == AtError::AtParseError
            },
        },
{
    let mut bytes = BoundedBytes::new();
    if text.len() % 2 != 0 {
        return Err(AtError::AtParseError);
    }
    let mut k: usize = 0;
    let mut full = false;
    while k < text.len()
        invariant
            k <= text@.len(),
            k % 2 == 0,
            text@.len() % 2 == 0,
            forall|i: int| 0 <= i < k ==> is_hex_digit(#[trigger] text@[i]),
            !full ==> bytes@ == bytes_of_hex(text@.subrange(0, k as int)),
            !full ==> k / 2 <= BYTE_STORE_SIZE,
            full ==> text@.len() / 2 > BYTE_STORE_SIZE,
        decreases text@.len() - k,
    {
        if !hex_digit_holds(text[k]) || !hex_digit_holds(text[k + 1]) {
            return Err(AtError::AtParseError);
        }
        let left_nibble = hex_to_nibble(text[k]);
        let right_nibble = hex_to_nibble(text[k + 1]);
        if !full {
            let ghost before = bytes@;
            match bytes.push(left_nibble * 16 + right_nibble) {
                Ok(_) => {
                    assert(bytes@ =~= bytes_of_hex(text@.subrange(0, k + 2))) by {
                        let grown = text@.subrange(0, k + 2);
                        let had = text@.subrange(0, k as int);
                        assert(grown.len() / 2 == had.len() / 2 + 1);
                        assert forall|i: int| 0 <= i < bytes@.len() implies bytes@[i]
                            == bytes_of_hex(grown)[i] by {
                            if i < had.len() / 2 {
                                assert(bytes_of_hex(had)[i] == before[i]);
                                assert(grown[2 * i] == had[2 * i]);
                                assert(grown[2 * i + 1] == had[2 * i + 1]);
                            }
                        }
                    }
                },
                Err(_) => {
                    full = true;
                },
            }
        }
        k += 2;
    }
    assert(text@.subrange(0, k as int) =~= text@);
    if full {
        Err(AtError::CapacityError)
    } else {
        Ok(bytes)
    }
}

impl UnsolicitedMessage for SocketDataReception {
    /// The message of well-formed bytes holds the socket and the bytes
    /// that the hexadecimal text stands for. Bytes that are no such
    /// message, or whose text is no hexadecimal, are a parse error; data of
    /// more than 512 bytes is a capacity error.
    open spec fn decoded(data: Seq<u8>, r: Result<Self, AtError>) -> bool {
        let fields = Self::fields_of(data);
        if !fields.valid || !is_hex(fields.text) {
            fails_with(r, AtError::AtParseError)
        } else if fields.text.len() / 2 > MAX_SOCKET_RECEPTION_SIZE {
            fails_with(r, AtError::CapacityError)
        } else {
            &&& r is Ok
            &&& r.unwrap().socket_id == handle_of(fields.socket_id)
            &&& r.unwrap().data@ == bytes_of_hex(fields.text)
        }
    }

    fn decode(data: &[u8]) -> (r: Result<Self, AtError>) {
        let (cursor, socket_id) = Cursor::new().whitespace(data).identifier(
            data,
            "+CSONMI: ".as_bytes(),
        ).whitespace(data).integer(data);
        let (cursor, _length) = cursor.integer(data);
        let (cursor, text) = cursor.text(data);
        if !cursor.valid {
            return Err(AtError::AtParseError);
        }
        match decode_hex(text.as_bytes()) {
            Ok(data) => Ok(SocketDataReception { socket_id: to_handle(socket_id), data }),
            Err(e) => Err(e),
        }
    }
}

} // verus!
