//! Texts and byte strings of bounded length, kept without the heap in the
//! containers of `heapless`.

use vstd::prelude::*;
use vstd::std_specs::convert::FromSpecImpl;
use vstd::string::StringSliceAdditionalSpecFns;
use crate::AtError;

verus! {

/// `heapless::CapacityError`: what a container did not have room for.
#[verifier::external_type_specification]
#[verifier::external_body]
pub struct ExCapacityError(heapless::CapacityError);

/// The largest number of bytes that a bounded text can be declared with.
pub const TEXT_STORE_SIZE: usize = 255;

/// The number of bytes that a bounded byte string holds at most.
pub const BYTE_STORE_SIZE: usize = 512;

/// A `heapless::String` of 255 bytes.
#[verifier::external_body]
#[derive(Debug)]
pub struct TextStore {
    inner: heapless::String<255>,
}

/// A `heapless::Vec` of 512 bytes.
#[verifier::external_body]
#[derive(Debug)]
pub struct ByteStore {
    inner: heapless::Vec<u8, 512>,
}

/// The bytes of the text that a store holds.
pub uninterp spec fn stored_text(store: TextStore) -> Seq<u8>;

/// The bytes that a store holds, in the order in which they were pushed.
pub uninterp spec fn stored_bytes(store: ByteStore) -> Seq<u8>;

/// `heapless::String::try_from`: a string that holds the text, where the
/// text has at most 255 bytes, and the capacity error where it has more.
#[verifier::external_body]
fn store_text(text: &str) -> (r: Result<TextStore, heapless::CapacityError>)
    ensures
        r is Ok <==> text.spec_bytes().len() <= 255,
        r is Ok ==> stored_text(r.unwrap()) == text.spec_bytes(),
{
    match heapless::String::try_from(text) {
        Ok(inner) => Ok(TextStore { inner }),
        Err(e) => Err(e),
    }
}

/// `heapless::String::as_str`: the text that the string holds.
#[verifier::external_body]
fn text_of<'a>(store: &'a TextStore) -> (r: &'a str)
    ensures
        r.spec_bytes() == stored_text(*store),
{
    store.inner.as_str()
}

/// `heapless::Vec::new`: a vector that holds nothing.
#[verifier::external_body]
fn empty_store() -> (r: ByteStore)
    ensures
        stored_bytes(r) == Seq::<u8>::empty(),
{
    ByteStore { inner: heapless::Vec::new() }
}

/// `heapless::Vec::push`: appends the byte where the vector holds fewer
/// than 512, and hands the byte back where it is full.
#[verifier::external_body]
fn push_byte(store: &mut ByteStore, byte: u8) -> (returned: Option<u8>)
    ensures
        returned is None <==> stored_bytes(*old(store)).len() < 512,
        returned is None ==> stored_bytes(*final(store)) == stored_bytes(*old(store)).push(byte),
        returned is Some ==> stored_bytes(*final(store)) == stored_bytes(*old(store))
            && returned == Some(byte),
{
    store.inner.push(byte).err()
}

/// `heapless::Vec::as_slice`: the bytes that the vector holds.
#[verifier::external_body]
fn bytes_of<'a>(store: &'a ByteStore) -> (r: &'a [u8])
    ensures
        r@ == stored_bytes(*store),
{
    store.inner.as_slice()
}

impl From<heapless::CapacityError> for AtError {
    fn from(_error: heapless::CapacityError) -> (r: AtError) {
        AtError::CapacityError
    }
}

impl FromSpecImpl<heapless::CapacityError> for AtError {
    open spec fn obeys_from_spec() -> bool {
        true
    }

    open spec fn from_spec(_error: heapless::CapacityError) -> AtError {
        AtError::CapacityError
    }
}

/// A text of at most `N` bytes, where `N` is at most 255.
#[derive(Debug)]
pub struct BoundedText<const N: usize> {
    store: TextStore,
}

impl<const N: usize> View for BoundedText<N> {
    type V = Seq<u8>;

    closed spec fn view(&self) -> Seq<u8> {
        stored_text(self.store)
    }
}

impl<const N: usize> BoundedText<N> {
    #[verifier::type_invariant]
    spec fn fits(self) -> bool {
        stored_text(self.store).len() <= N
    }

    /// Whether a text of `length` bytes fits a text bounded by `N`.
    pub open spec fn admits(length: nat) -> bool {
        length <= N && length <= TEXT_STORE_SIZE
    }

    /// Keeps `text`, or fails with a capacity error where it has more than
    /// `N` bytes.
    pub fn new(text: &str) -> (r: Result<Self, AtError>)
        ensures
            match r {
                Ok(kept) => Self::admits(text.spec_bytes().len()) && kept@ == text.spec_bytes(),
                Err(e) => !Self::admits(text.spec_bytes().len()) && e == AtError::CapacityError,
            },
    {
        if text.as_bytes().len() > N {
            return Err(AtError::CapacityError);
        }
        match store_text(text) {
            Ok(store) => Ok(BoundedText { store }),
            Err(e) => Err(AtError::from(e)),
        }
    }

    /// The text.
    pub fn as_str(&self) -> (r: &str)
        ensures
            r.spec_bytes() == self@,
            self@.len() <= N,
    {
        proof {
            use_type_invariant(self);
        }
        text_of(&self.store)
    }
}

/// A byte string of at most 512 bytes.
#[derive(Debug)]
pub struct BoundedBytes {
    store: ByteStore,
}

impl View for BoundedBytes {
    type V = Seq<u8>;

    closed spec fn view(&self) -> Seq<u8> {
        stored_bytes(self.store)
    }
}

impl BoundedBytes {
    /// The empty byte string.
    pub fn new() -> (r: Self)
        ensures
            r@ == Seq::<u8>::empty(),
    {
        BoundedBytes { store: empty_store() }
    }

    /// Appends `byte`, or fails with a capacity error, and changes nothing,
    /// where 512 bytes are held already.
    pub fn push(&mut self, byte: u8) -> (r: Result<(), AtError>)
        ensures
            match r {
                Ok(_) => old(self)@.len() < BYTE_STORE_SIZE && final(self)@ == old(self)@.push(
                    byte,
                ),
                Err(e) => old(self)@.len() >= BYTE_STORE_SIZE && final(self)@ == old(self)@ && e
                    == AtError::CapacityError,
            },
    {
        match push_byte(&mut self.store, byte) {
            None => Ok(()),
            Some(_) => Err(AtError::CapacityError),
        }
    }

    /// The bytes.
    pub fn as_slice(&self) -> (r: &[u8])
        ensures
            r@ == self@,
    {
        bytes_of(&self.store)
    }

    /// The number of bytes.
    pub fn len(&self) -> (r: usize)
        ensures
            r == self@.len(),
    {
        bytes_of(&self.store).len()
    }
}

/// What an optional bounded text holds.
pub open spec fn optional_view<const N: usize>(kept: Option<BoundedText<N>>) -> Option<Seq<u8>> {
    match kept {
        Some(kept) => Some(kept@),
        None => None,
    }
}

/// Whether an optional text fits a text bounded by `N`.
pub open spec fn optional_admits<const N: usize>(text: Option<Seq<u8>>) -> bool {
    match text {
        Some(text) => BoundedText::<N>::admits(text.len()),
        None => true,
    }
}

/// Keeps a text that may be missing.
pub fn bound_optional<const N: usize>(text: Option<&str>) -> (r: Result<
    Option<BoundedText<N>>,
    AtError,
>)
    ensures
        match r {
            Ok(kept) => {
                &&& kept is Some == text is Some
                &&& kept is Some ==> BoundedText::<N>::admits(text.unwrap().spec_bytes().len())
                    && kept.unwrap()@ == text.unwrap().spec_bytes()
            },
            Err(e) => text is Some && !BoundedText::<N>::admits(text.unwrap().spec_bytes().len())
                && e == AtError::CapacityError,
        },
{
    match text {
        Some(text) => match BoundedText::<N>::new(text) {
            Ok(kept) => Ok(Some(kept)),
            Err(e) => Err(e),
        },
        None => Ok(None),
    }
}

} // verus!
