//! The `LayoutUpdated` signal of a dbusmenu object: subscribing and recognising it.
use crate::encoder::{encoded, encoded_len, MessageType};
use crate::error::EncodeError;
use crate::incoming::IncomingMessage;
use crate::messages::org_freedesktop_dbus::add_match::add_match_message;
use crate::messages::org_freedesktop_dbus::remove_match::remove_match_message;
use crate::messages::org_freedesktop_dbus::rule::{MatchRule, RULE_BUFFER_LEN};
use crate::messages::org_freedesktop_dbus::{Subscribe, Unsubscribe};
use crate::text::{opt_is, opt_str_is};
use crate::incoming::carries_message;
use crate::messages::sni_client::dbusmenu::layout_updated::layout_updated_header;
use crate::wire::Wire;
use vstd::prelude::*;
use vstd::string::StringSliceAdditionalSpecFns;

verus! {

/// Subscribes to `LayoutUpdated` signal
pub struct LayoutUpdatedSubscribe;

/// Unsubscribes from `LayoutUpdated` signal
pub struct LayoutUpdatedUnsubscribe;

/// A helper struct to handle `LayoutUpdated` signal
pub struct LayoutUpdatedSignal;

/// The match rule for the signal from the menu at `path` of `address`.
pub open spec fn layout_updated_rule(address: Seq<u8>, path: Seq<u8>) -> Seq<u8> {
    layout_updated_match(address, path).text()
}

/// The constraints of that rule.
pub open spec fn layout_updated_match(address: Seq<u8>, path: Seq<u8>) -> MatchRule {
    MatchRule {
        sender: Some(address),
        interface: Some("com.canonical.dbusmenu".spec_bytes()),
        path: Some(path),
        member: Some("LayoutUpdated".spec_bytes()),
    }
}

/// Whether `m` is the signal from the menu at `path` of `address`.
pub open spec fn is_layout_updated(m: IncomingMessage, address: &str, path: &str) -> bool {
    &&& m.message_type == MessageType::Signal
    &&& opt_is(m.interface, "com.canonical.dbusmenu")
    &&& opt_is(m.member, "LayoutUpdated")
    &&& opt_is(m.sender, address)
    &&& opt_is(m.path, path)
}

impl LayoutUpdatedSubscribe {
    /// Writes the `AddMatch` call for the signal into `buf`.
    ///
    /// # Errors
    ///
    /// Returns an error if the rule or the message doesn't fit.
    pub fn encode(args: (&str, &str), buf: &mut [u8]) -> (r: Result<usize, EncodeError>)
        ensures
            ({
                let rule = layout_updated_rule(args.0.spec_bytes(), args.1.spec_bytes());
                if rule.len() > RULE_BUFFER_LEN {
                    r == Err::<usize, EncodeError>(EncodeError::BufferTooSmall) && final(buf)@ == old(buf)@
                } else {
                    encoded_len(r, old(buf)@, final(buf)@, add_match_message(rule))
                }
            }),
    {
        let (address, path) = args;
        Subscribe::encode(buf, Some(address), Some(path), Some("com.canonical.dbusmenu"), Some("LayoutUpdated"))
    }
}

impl LayoutUpdatedUnsubscribe {
    /// Writes the `RemoveMatch` call for the signal into `buf`.
    ///
    /// # Errors
    ///
    /// Returns an error if the rule or the message doesn't fit.
    pub fn encode<'b>(args: (&str, &str), buf: &'b mut [u8]) -> (r: Result<&'b [u8], EncodeError>)
        ensures
            ({
                let rule = layout_updated_rule(args.0.spec_bytes(), args.1.spec_bytes());
                if rule.len() > RULE_BUFFER_LEN {
                    r is Err && r->Err_0 == EncodeError::BufferTooSmall && final(buf)@ == old(buf)@
                } else {
                    encoded(r, old(buf)@, final(buf)@, remove_match_message(rule))
                }
            }),
    {
        let (address, path) = args;
        Unsubscribe::encode((Some(address), Some(path), Some("com.canonical.dbusmenu"), Some("LayoutUpdated")), buf)
    }
}

impl LayoutUpdatedSignal {
    /// Returns true if given message represents the signal
    pub fn matches(message: IncomingMessage<'_>, address: &str, path: &str) -> (r: bool)
        ensures
            r == is_layout_updated(message, address, path),
    {
        message.message_type == MessageType::Signal && opt_str_is(message.interface, "com.canonical.dbusmenu")
            && opt_str_is(message.member, "LayoutUpdated") && opt_str_is(message.sender, address) && opt_str_is(
            message.path,
            path,
        )
    }
}

/// The signals that the `LayoutUpdated` subscription for `(address, path)`
/// delivers are exactly those that `LayoutUpdatedSignal::matches` accepts for them.
pub proof fn lemma_layout_updated_subscription_matches(m: IncomingMessage, address: &str, path: &str)
    ensures
        layout_updated_match(address.spec_bytes(), path.spec_bytes()).admits(m) == is_layout_updated(m, address, path),
{
}

/// The `LayoutUpdated` signal that the menu at `path` of `address` emits is
/// recognised by `LayoutUpdatedSignal::matches` for them.
pub proof fn lemma_host_sees_menu_layout_updated(m: IncomingMessage, address: &str, path: &str, revision: u32, parent: i32)
    requires
        carries_message(m, layout_updated_header(path.spec_bytes()), seq![Wire::UInt32(revision), Wire::Int32(parent)]),
        opt_is(m.sender, address),
    ensures
        is_layout_updated(m, address, path),
{
}

} // verus!
