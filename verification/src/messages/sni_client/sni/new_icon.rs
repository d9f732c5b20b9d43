//! The `NewIcon` signal of an SNI item.
use crate::encoder::{encode_into, encoded, message, signal_header, HeaderSpec, MessageEncoder};
use crate::error::EncodeError;
use crate::wire::{marshal_seq, Wire};
use vstd::prelude::*;
use vstd::string::StringSliceAdditionalSpecFns;

verus! {

/// Emits `NewIcon`, notifying hosts to re-read `IconName` and/or `IconPixmap`.
pub struct NewIconSignal;

/// The `NewIcon` signal.
pub open spec fn new_icon_message() -> Seq<u8> {
    message(new_icon_header(), Seq::empty())
}

/// Header of the signal.
pub open spec fn new_icon_header() -> HeaderSpec {
    signal_header(
        "/StatusNotifierItem".spec_bytes(),
        "org.kde.StatusNotifierItem".spec_bytes(),
        "NewIcon".spec_bytes(),
        Seq::empty(),
    )
}

impl NewIconSignal {
    /// Writes the signal into `buf`.
    ///
    /// # Errors
    ///
    /// Returns an error if the message doesn't fit into `buf`.
    pub fn encode<'b>(buf: &'b mut [u8]) -> (r: Result<&'b [u8], EncodeError>)
        ensures
            encoded(r, old(buf)@, final(buf)@, new_icon_message()),
    {
        let e = MessageEncoder::signal("/StatusNotifierItem", "org.kde.StatusNotifierItem", "NewIcon");
        assert(e.body@ =~= marshal_seq(0, Seq::<Wire>::empty()));
        encode_into(&e, buf)
    }
}

} // verus!
