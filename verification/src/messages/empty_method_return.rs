//! A method return without a body.
use crate::encoder::{encode_into, encoded, message, reply_header, MessageEncoder};
use crate::error::EncodeError;
use crate::wire::{marshal_seq, Wire};
use vstd::prelude::*;
use vstd::string::StringSliceAdditionalSpecFns;

verus! {

/// Represents an empty method return, with no body
pub struct EmptyMethodReturn;

/// An empty return of call `reply_serial` to `destination`.
pub open spec fn empty_method_return_message(destination: Seq<u8>, reply_serial: u32) -> Seq<u8> {
    message(reply_header(reply_serial, destination, Seq::empty()), Seq::empty())
}

impl EmptyMethodReturn {
    /// Writes an empty return of call `reply_serial` to `destination` (`args`) into `buf`.
    ///
    /// # Errors
    ///
    /// Returns an error if the message doesn't fit into `buf`.
    pub fn encode<'b>(args: (&str, u32), buf: &'b mut [u8]) -> (r: Result<&'b [u8], EncodeError>)
        ensures
            encoded(r, old(buf)@, final(buf)@, empty_method_return_message(args.0.spec_bytes(), args.1)),
    {
        let (destination, reply_serial) = args;
        let e = MessageEncoder::method_return(reply_serial, destination);
        assert(e.body@ =~= marshal_seq(0, Seq::<Wire>::empty()));
        encode_into(&e, buf)
    }
}

} // verus!
