//! The `Event` call that a host sends to activate a menu item.
use crate::encoder::{
    call_header, encode_into, encoded, lemma_marshal_seq_two, message, put_i32, put_sig, put_str,
    put_u32, HeaderSpec, MessageEncoder,
};
use crate::error::EncodeError;
use crate::wire::{lemma_marshal_seq_push, lemma_variant, marshal_seq, Wire};
use vstd::prelude::*;
use vstd::string::StringSliceAdditionalSpecFns;

verus! {

/// Helper type to send an `Event` method call
pub struct Event;

/// Arguments of the `Event` call
pub struct EventArgs<'a> {
    /// ID to trigger on
    pub id: i32,
    /// Timestamp
    pub timestamp: u32,
    /// Destination of the receiver
    pub destination: &'a str,
    /// Path of the receiver
    pub path: &'a str,
}

/// Header of the `Event` call to the menu at `path` of `destination`.
pub open spec fn event_header(destination: Seq<u8>, path: Seq<u8>) -> HeaderSpec {
    call_header(destination, path, "com.canonical.dbusmenu".spec_bytes(), "Event".spec_bytes(), "isvu".spec_bytes())
}

/// Body of the `clicked` event for item `id` at `timestamp`.
pub open spec fn event_body(id: i32, timestamp: u32) -> Seq<Wire> {
    seq![
        Wire::Int32(id),
        Wire::Str("clicked".spec_bytes()),
        Wire::Variant("i".spec_bytes(), Box::new(Wire::Int32(0))),
        Wire::UInt32(timestamp),
    ]
}

/// The `clicked` event for item `id` of the menu at `path` of `destination`.
pub open spec fn event_message(destination: Seq<u8>, path: Seq<u8>, id: i32, timestamp: u32) -> Seq<u8> {
    message(event_header(destination, path), event_body(id, timestamp))
}

impl Event {
    /// Writes the `clicked` event call for `args` into `buf`.
    ///
    /// # Errors
    ///
    /// Returns an error if the message doesn't fit into `buf`.
    pub fn encode<'b>(args: EventArgs<'_>, buf: &'b mut [u8]) -> (r: Result<&'b [u8], EncodeError>)
        ensures
            encoded(
                r,
                old(buf)@,
                final(buf)@,
                event_message(args.destination.spec_bytes(), args.path.spec_bytes(), args.id, args.timestamp),
            ),
    {
        let EventArgs { id, timestamp, destination, path } = args;
        let mut e = MessageEncoder::method_call(destination, path, "com.canonical.dbusmenu", "Event");
        e.signature = Some("isvu");
        put_i32(&mut e.body, id);
        put_str(&mut e.body, "clicked");
        let ghost two = seq![Wire::Int32(id), Wire::Str("clicked".spec_bytes())];
        proof {
            lemma_marshal_seq_two(0, Wire::Int32(id), Wire::Str("clicked".spec_bytes()));
            assert(e.body@ =~= marshal_seq(0, two));
        }
        let ghost pos = e.body@.len();
        put_sig(&mut e.body, "i");
        put_i32(&mut e.body, 0);
        let ghost v = Wire::Variant("i".spec_bytes(), Box::new(Wire::Int32(0)));
        proof {
            lemma_variant(pos, "i".spec_bytes(), Wire::Int32(0));
            lemma_marshal_seq_push(0, two, v);
            assert(e.body@ =~= marshal_seq(0, two.push(v)));
        }
        put_u32(&mut e.body, timestamp);
        proof {
            lemma_marshal_seq_push(0, two.push(v), Wire::UInt32(timestamp));
            assert(e.body@ =~= marshal_seq(0, two.push(v).push(Wire::UInt32(timestamp))));
            assert(two.push(v).push(Wire::UInt32(timestamp)) =~= seq![
                Wire::Int32(id),
                Wire::Str("clicked".spec_bytes()),
                v,
                Wire::UInt32(timestamp),
            ]);
        }
        encode_into(&e, buf)
    }
}

} // verus!
