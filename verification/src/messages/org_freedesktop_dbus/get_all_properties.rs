//! `org.freedesktop.DBus.Properties.GetAll`.
use super::get_property::properties_interface;
use crate::encoder::{
    call_header, encode_into, encoded, lemma_marshal_seq_one, message, put_str, MessageEncoder,
};
use crate::error::EncodeError;
use crate::wire::{marshal_seq, Wire};
use vstd::prelude::*;
use vstd::string::StringSliceAdditionalSpecFns;

verus! {

/// Represents a request to get all object properties
pub struct GetAllProperties;

/// The `GetAll` call for the properties of one interface.
pub open spec fn get_all_properties_message(destination: Seq<u8>, path: Seq<u8>, interface: Seq<u8>) -> Seq<u8> {
    message(
        call_header(destination, path, properties_interface(), "GetAll".spec_bytes(), "s".spec_bytes()),
        seq![Wire::Str(interface)],
    )
}

impl GetAllProperties {
    /// Writes a `GetAll` call for `(destination, path, interface)` into `buf`.
    ///
    /// # Errors
    ///
    /// Returns an error if the message doesn't fit into `buf`.
    pub fn encode<'b>(args: (&str, &str, &str), buf: &'b mut [u8]) -> (r: Result<&'b [u8], EncodeError>)
        ensures
            encoded(
                r,
                old(buf)@,
                final(buf)@,
                get_all_properties_message(args.0.spec_bytes(), args.1.spec_bytes(), args.2.spec_bytes()),
            ),
    {
        let (destination, path, interface) = args;
        let mut e = MessageEncoder::method_call(destination, path, "org.freedesktop.DBus.Properties", "GetAll");
        e.signature = Some("s");
        put_str(&mut e.body, interface);
        proof {
            lemma_marshal_seq_one(0, Wire::Str(interface.spec_bytes()));
            assert(e.body@ =~= marshal_seq(0, seq![Wire::Str(interface.spec_bytes())]));
        }
        encode_into(&e, buf)
    }
}

} // verus!
