//! The `LayoutUpdated` signal of a `com.canonical.dbusmenu` object.
use crate::encoder::{
    encode_into, encoded, lemma_marshal_seq_two, message, put_i32, put_u32, signal_header, HeaderSpec,
    MessageEncoder,
};
use crate::error::EncodeError;
use crate::wire::{marshal_seq, Wire};
use vstd::prelude::*;
use vstd::string::StringSliceAdditionalSpecFns;

verus! {

/// Emits `LayoutUpdated` for a `com.canonical.dbusmenu` object.
pub struct LayoutUpdatedSignal;

/// The signal that the layout below `parent` changed, now at `revision`.
pub open spec fn layout_updated_message(path: Seq<u8>, revision: u32, parent: i32) -> Seq<u8> {
    message(layout_updated_header(path), seq![Wire::UInt32(revision), Wire::Int32(parent)])
}

/// Header of the signal from the menu at `path`.
pub open spec fn layout_updated_header(path: Seq<u8>) -> HeaderSpec {
    signal_header(path, "com.canonical.dbusmenu".spec_bytes(), "LayoutUpdated".spec_bytes(), "ui".spec_bytes())
}

impl LayoutUpdatedSignal {
    /// Writes the signal for `(path, revision, parent)` into `buf`.
    ///
    /// # Errors
    ///
    /// Returns an error if the message doesn't fit into `buf`.
    pub fn encode<'b>(args: (&str, u32, i32), buf: &'b mut [u8]) -> (r: Result<&'b [u8], EncodeError>)
        ensures
            encoded(r, old(buf)@, final(buf)@, layout_updated_message(args.0.spec_bytes(), args.1, args.2)),
    {
        let (path, revision, parent) = args;
        let mut e = MessageEncoder::signal(path, "com.canonical.dbusmenu", "LayoutUpdated");
        e.signature = Some("ui");
        put_u32(&mut e.body, revision);
        put_i32(&mut e.body, parent);
        proof {
            lemma_marshal_seq_two(0, Wire::UInt32(revision), Wire::Int32(parent));
            assert(e.body@ =~= marshal_seq(0, seq![Wire::UInt32(revision), Wire::Int32(parent)]));
        }
        encode_into(&e, buf)
    }
}

} // verus!
