//! `RemoveMatch`: unsubscribing from signals.
use super::bus::{bus_call, encode_bus_call_str};
use crate::encoder::encoded;
use crate::error::EncodeError;
use crate::wire::Wire;
use vstd::prelude::*;
use vstd::string::StringSliceAdditionalSpecFns;

verus! {

/// Represents a request to unsubscribe from some `DBus` changes. The opposite of `AddMatch`.
pub struct RemoveMatch;

/// The `RemoveMatch` call for a match rule.
pub open spec fn remove_match_message(rule: Seq<u8>) -> Seq<u8> {
    bus_call("RemoveMatch".spec_bytes(), "s".spec_bytes(), seq![Wire::Str(rule)])
}

impl RemoveMatch {
    /// Writes a "remove match" message to a given buffer.
    ///
    /// # Errors
    ///
    /// Returns an error if message doesn't fit into given buffer.
    pub fn encode<'b>(buf: &'b mut [u8], rule: &str) -> (r: Result<&'b [u8], EncodeError>)
        ensures
            encoded(r, old(buf)@, final(buf)@, remove_match_message(rule.spec_bytes())),
    {
        encode_bus_call_str("RemoveMatch", rule.as_bytes(), buf)
    }
}

} // verus!
