//! `RequestName`: asking the bus for a well-known name.
use super::bus::{bus_call, bus_encoder};
use crate::encoder::{encode_into, encoded, lemma_marshal_seq_two, put_str, put_u32};
use crate::error::EncodeError;
use crate::wire::{marshal_seq, Wire};
use vstd::prelude::*;
use vstd::string::StringSliceAdditionalSpecFns;

verus! {

/// Represents a request to `DBus` to occupy some name
pub struct RequestName;

/// Flags of the request: allow replacement, replace existing, do not queue.
pub const REQUEST_NAME_FLAGS: u32 = 7;

/// The `RequestName` call for `name`.
pub open spec fn request_name_message(name: Seq<u8>) -> Seq<u8> {
    bus_call(
        "RequestName".spec_bytes(),
        "su".spec_bytes(),
        seq![Wire::Str(name), Wire::UInt32(REQUEST_NAME_FLAGS)],
    )
}

impl RequestName {
    /// Writes a `RequestName` call for `name` into `buf`.
    ///
    /// # Errors
    ///
    /// Returns an error if the message doesn't fit into `buf`.
    pub fn encode<'b>(name: &str, buf: &'b mut [u8]) -> (r: Result<&'b [u8], EncodeError>)
        ensures
            encoded(r, old(buf)@, final(buf)@, request_name_message(name.spec_bytes())),
    {
        let mut e = bus_encoder("RequestName");
        e.signature = Some("su");
        put_str(&mut e.body, name);
        put_u32(&mut e.body, REQUEST_NAME_FLAGS);
        proof {
            lemma_marshal_seq_two(0, Wire::Str(name.spec_bytes()), Wire::UInt32(REQUEST_NAME_FLAGS));
            assert(e.body@ =~= marshal_seq(0, seq![Wire::Str(name.spec_bytes()), Wire::UInt32(REQUEST_NAME_FLAGS)]));
        }
        encode_into(&e, buf)
    }
}

} // verus!
