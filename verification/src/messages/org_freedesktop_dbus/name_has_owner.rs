//! `NameHasOwner`: asking whether a bus name has an owner.
use super::bus::{bus_call, encode_bus_call_str};
use crate::encoder::encoded;
use crate::error::{DBusError, EncodeError};
use crate::incoming::{IncomingBody, IncomingValue};
use crate::wire::Wire;
use vstd::prelude::*;
use vstd::string::StringSliceAdditionalSpecFns;

verus! {

/// Represents a request to check if a bus name currently has an owner.
#[derive(Clone, Copy)]
pub struct NameHasOwner;

/// The `NameHasOwner` call for `name`.
pub open spec fn name_has_owner_message(name: Seq<u8>) -> Seq<u8> {
    bus_call("NameHasOwner".spec_bytes(), "s".spec_bytes(), seq![Wire::Str(name)])
}

/// Error for a reply without a value.
pub open spec fn name_has_owner_no_body() -> DBusError {
    DBusError::Other("NameHasOwner reply has no body")
}

impl NameHasOwner {
    /// Writes a `NameHasOwner` call for `name` into `buf`.
    ///
    /// # Errors
    ///
    /// Returns an error if the message doesn't fit into `buf`.
    pub fn encode<'b>(name: &str, buf: &'b mut [u8]) -> (r: Result<&'b [u8], EncodeError>)
        ensures
            encoded(r, old(buf)@, final(buf)@, name_has_owner_message(name.spec_bytes())),
    {
        encode_bus_call_str("NameHasOwner", name.as_bytes(), buf)
    }

    /// Reads the answer from the reply's body: its first value, a boolean.
    ///
    /// # Errors
    ///
    /// Returns an error if the body is empty or its first value is not a boolean.
    pub fn handle_reply_body(&self, body: IncomingBody<'_>) -> (r: Result<bool, DBusError>)
        ensures
            body.values@.len() == 0 ==> r == Err::<bool, DBusError>(name_has_owner_no_body()),
            body.values@.len() > 0 ==> r == match body.values@[0] {
                IncomingValue::Bool(b) => Ok::<bool, DBusError>(b),
                _ => Err(DBusError::WrongValue),
            },
    {
        match body.get(0) {
            None => Err(DBusError::Other("NameHasOwner reply has no body")),
            Some(IncomingValue::Bool(b)) => Ok(b),
            Some(_) => Err(DBusError::WrongValue),
        }
    }
}

} // verus!
