//! Messages that the module sends on its own, outside any reply.

use vstd::prelude::*;
use crate::AtError;

pub mod socket_reception;

verus! {

/// The contract of a message that the module sends unasked: how it is read
/// from the bytes that arrived.
pub trait UnsolicitedMessage: Sized {
    /// Whether `r` is what the bytes `data` decode to.
    spec fn decoded(data: Seq<u8>, r: Result<Self, AtError>) -> bool;

    /// Decodes the bytes that arrived.
    fn decode(data: &[u8]) -> (r: Result<Self, AtError>)
        ensures
            Self::decoded(data@, r),
    ;
}

} // verus!
