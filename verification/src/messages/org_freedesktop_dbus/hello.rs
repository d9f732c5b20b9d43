//! `Hello`: the first call on a new connection.
use super::bus::{bus_call, bus_encoder};
use crate::encoder::{encode_into, encoded};
use crate::error::EncodeError;
use crate::wire::{marshal_seq, Wire};
use vstd::prelude::*;
use vstd::string::StringSliceAdditionalSpecFns;

verus! {

/// `Hello` message
pub struct Hello;

/// The `Hello` call.
pub open spec fn hello_message() -> Seq<u8> {
    bus_call("Hello".spec_bytes(), Seq::empty(), Seq::empty())
}

impl Hello {
    /// Writes the `Hello` call into `buf`.
    ///
    /// # Errors
    ///
    /// Returns an error if the message doesn't fit into `buf`.
    pub fn encode<'b>(buf: &'b mut [u8]) -> (r: Result<&'b [u8], EncodeError>)
        ensures
            encoded(r, old(buf)@, final(buf)@, hello_message()),
    {
        let e = bus_encoder("Hello");
        assert(e.body@ =~= marshal_seq(0, Seq::<Wire>::empty()));
        encode_into(&e, buf)
    }
}

} // verus!
