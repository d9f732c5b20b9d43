//! The "no such method" error reply.
use crate::encoder::{
    encode_into, encoded, error_header, lemma_marshal_seq_one, message, put_str, MessageEncoder,
    MessageType,
};
use crate::error::EncodeError;
use crate::wire::{marshal_seq, Wire};
use vstd::prelude::*;
use vstd::string::StringSliceAdditionalSpecFns;

verus! {

/// Represents a "no such method" error reply
pub struct ErrorNoMethod;

/// The `UnknownMethod` error reply to call `reply_serial` of `destination`.
pub open spec fn error_no_method_message(destination: Seq<u8>, reply_serial: u32) -> Seq<u8> {
    message(
        error_header(
            "org.freedesktop.DBus.Error.UnknownMethod".spec_bytes(),
            reply_serial,
            destination,
            "s".spec_bytes(),
        ),
        seq![Wire::Str("Unknown method".spec_bytes())],
    )
}

impl ErrorNoMethod {
    /// Writes the error reply to call `reply_serial` of `destination` (`args`) into `buf`.
    ///
    /// # Errors
    ///
    /// Returns an error if the message doesn't fit into `buf`.
    pub fn encode<'b>(args: (&str, u32), buf: &'b mut [u8]) -> (r: Result<&'b [u8], EncodeError>)
        ensures
            encoded(r, old(buf)@, final(buf)@, error_no_method_message(args.0.spec_bytes(), args.1)),
    {
        let (destination, reply_serial) = args;
        let mut e = MessageEncoder::new(MessageType::Error);
        e.error_name = Some("org.freedesktop.DBus.Error.UnknownMethod");
        e.destination = Some(destination);
        e.reply_serial = Some(reply_serial);
        e.signature = Some("s");
        put_str(&mut e.body, "Unknown method");
        proof {
            lemma_marshal_seq_one(0, Wire::Str("Unknown method".spec_bytes()));
            assert(e.body@ =~= marshal_seq(0, seq![Wire::Str("Unknown method".spec_bytes())]));
        }
        encode_into(&e, buf)
    }
}

} // verus!
