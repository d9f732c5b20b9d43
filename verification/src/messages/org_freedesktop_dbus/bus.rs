//! Method calls to the bus daemon itself.
use crate::encoder::{
    call_header, encode_into, encoded, lemma_marshal_seq_one, message, put_str_bytes,
    MessageEncoder, MessageType,
};
use crate::error::EncodeError;
use crate::wire::{marshal_seq, Wire};
use vstd::prelude::*;
use vstd::string::StringSliceAdditionalSpecFns;

verus! {

/// Well-known name of the bus daemon.
pub open spec fn bus_name() -> Seq<u8> {
    "org.freedesktop.DBus".spec_bytes()
}

/// Object path of the bus daemon.
pub open spec fn bus_path() -> Seq<u8> {
    "/org/freedesktop/DBus".spec_bytes()
}

/// A call of `member` on the bus daemon with the given body.
pub open spec fn bus_call(member: Seq<u8>, signature: Seq<u8>, body: Seq<Wire>) -> Seq<u8> {
    message(call_header(bus_name(), bus_path(), bus_name(), member, signature), body)
}

/// An encoder for a call of `member` on the bus daemon, with an empty body.
pub fn bus_encoder<'a>(member: &'a str) -> (e: MessageEncoder<'a>)
    ensures
        e.header() == call_header(bus_name(), bus_path(), bus_name(), member.spec_bytes(), Seq::empty()),
        e.body@ == Seq::<u8>::empty(),
{
    let mut e = MessageEncoder::new(MessageType::MethodCall);
    e.path = Some("/org/freedesktop/DBus");
    e.member = Some(member);
    e.interface = Some("org.freedesktop.DBus");
    e.destination = Some("org.freedesktop.DBus");
    e
}

/// Writes a call of `member` on the bus daemon with one string argument.
pub fn encode_bus_call_str<'b>(member: &str, arg: &[u8], buf: &'b mut [u8]) -> (r: Result<&'b [u8], EncodeError>)
    ensures
        encoded(r, old(buf)@, final(buf)@, bus_call(member.spec_bytes(), "s".spec_bytes(), seq![Wire::Str(arg@)])),
{
    let mut e = bus_encoder(member);
    e.signature = Some("s");
    put_str_bytes(&mut e.body, arg);
    proof {
        lemma_marshal_seq_one(0, Wire::Str(arg@));
        assert(e.body@ =~= marshal_seq(0, seq![Wire::Str(arg@)]));
    }
    encode_into(&e, buf)
}

} // verus!
