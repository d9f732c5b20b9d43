//! The `Activate` call that a host sends to an item.
use crate::encoder::MessageType;
use crate::incoming::IncomingMessage;
use crate::text::{opt_is, opt_str_is};
use vstd::prelude::*;

verus! {

/// Represents "Activate" event that is sent from SNI host
pub struct StatusNotifierActivateEvent;

/// Whether `m` calls `Activate` on the item, under either interface name.
pub open spec fn is_activate(m: IncomingMessage) -> bool {
    &&& m.message_type == MessageType::MethodCall
    &&& opt_is(m.path, "/StatusNotifierItem")
    &&& (opt_is(m.interface, "org.kde.StatusNotifierItem") || opt_is(
        m.interface,
        "org.freedesktop.StatusNotifierItem",
    ))
    &&& opt_is(m.member, "Activate")
}

impl StatusNotifierActivateEvent {
    /// Returns true if given message matches "Activate" message
    pub fn handle(message: IncomingMessage<'_>) -> (r: bool)
        ensures
            r == is_activate(message),
    {
        message.message_type == MessageType::MethodCall && opt_str_is(message.path, "/StatusNotifierItem")
            && (opt_str_is(message.interface, "org.kde.StatusNotifierItem") || opt_str_is(
            message.interface,
            "org.freedesktop.StatusNotifierItem",
        )) && opt_str_is(message.member, "Activate")
    }
}

} // verus!
