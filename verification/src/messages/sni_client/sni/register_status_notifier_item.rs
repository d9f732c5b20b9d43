//! Registering an SNI item with the watcher.
use crate::encoder::{
    call_header, encode_into, encoded, lemma_marshal_seq_one, message, put_str, MessageEncoder,
};
use crate::error::{DBusError, EncodeError};
use crate::incoming::IncomingBody;
use crate::wire::{marshal_seq, Wire};
use vstd::prelude::*;
use vstd::string::StringSliceAdditionalSpecFns;

verus! {

/// Represents a request to register an SNI item with the watcher.
pub struct RegisterStatusNotifierItem;

/// The call that registers `item`.
pub open spec fn register_item_message(item: Seq<u8>) -> Seq<u8> {
    message(
        call_header(
            "org.kde.StatusNotifierWatcher".spec_bytes(),
            "/StatusNotifierWatcher".spec_bytes(),
            "org.kde.StatusNotifierWatcher".spec_bytes(),
            "RegisterStatusNotifierItem".spec_bytes(),
            "s".spec_bytes(),
        ),
        seq![Wire::Str(item)],
    )
}

impl RegisterStatusNotifierItem {
    /// Writes the call that registers `item` into `buf`.
    ///
    /// # Errors
    ///
    /// Returns an error if the message doesn't fit into `buf`.
    pub fn encode<'b>(item: &str, buf: &'b mut [u8]) -> (r: Result<&'b [u8], EncodeError>)
        ensures
            encoded(r, old(buf)@, final(buf)@, register_item_message(item.spec_bytes())),
    {
        let mut e = MessageEncoder::method_call(
            "org.kde.StatusNotifierWatcher",
            "/StatusNotifierWatcher",
            "org.kde.StatusNotifierWatcher",
            "RegisterStatusNotifierItem",
        );
        e.signature = Some("s");
        put_str(&mut e.body, item);
        proof {
            lemma_marshal_seq_one(0, Wire::Str(item.spec_bytes()));
            assert(e.body@ =~= marshal_seq(0, seq![Wire::Str(item.spec_bytes())]));
        }
        encode_into(&e, buf)
    }

    /// The reply carries nothing to read.
    pub fn handle_reply_body(&self, _body: IncomingBody<'_>) -> (r: Result<(), DBusError>)
        ensures
            r == Ok::<(), DBusError>(()),
    {
        Ok(())
    }
}

} // verus!
