//! `AddMatch`: subscribing to signals.
use super::bus::{bus_call, encode_bus_call_str};
use crate::encoder::encoded;
use crate::error::EncodeError;
use crate::wire::Wire;
use vstd::prelude::*;
use vstd::string::StringSliceAdditionalSpecFns;

verus! {

/// Represents a request to subscribe to something in `DBus`
pub struct AddMatch;

/// The `AddMatch` call for a match rule.
pub open spec fn add_match_message(rule: Seq<u8>) -> Seq<u8> {
    bus_call("AddMatch".spec_bytes(), "s".spec_bytes(), seq![Wire::Str(rule)])
}

impl AddMatch {
    /// Writes an `AddMatch` call for `rule` into `buf`.
    ///
    /// # Errors
    ///
    /// Returns an error if the message doesn't fit into `buf`.
    pub fn encode<'b>(rule: &str, buf: &'b mut [u8]) -> (r: Result<&'b [u8], EncodeError>)
        ensures
            encoded(r, old(buf)@, final(buf)@, add_match_message(rule.spec_bytes())),
    {
        encode_bus_call_str("AddMatch", rule.as_bytes(), buf)
    }
}

} // verus!
