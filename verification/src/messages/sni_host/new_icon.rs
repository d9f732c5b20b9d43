//! The `NewIcon` signal of an SNI item: subscribing and recognising it.
use crate::encoder::{encoded, encoded_len, MessageType};
use crate::error::EncodeError;
use crate::incoming::IncomingMessage;
use crate::messages::org_freedesktop_dbus::add_match::add_match_message;
use crate::messages::org_freedesktop_dbus::remove_match::remove_match_message;
use crate::messages::org_freedesktop_dbus::rule::{MatchRule, RULE_BUFFER_LEN};
use crate::messages::org_freedesktop_dbus::{Subscribe, Unsubscribe};
use crate::text::{opt_is, opt_str_is};
use crate::incoming::carries_message;
use crate::messages::sni_client::sni::new_icon::new_icon_header;
use vstd::prelude::*;
use vstd::string::StringSliceAdditionalSpecFns;

verus! {

/// Subscribes to `NewIcon` signal
pub struct NewIconSubscribe;

/// Unsubscribes from `NewIcon` signal
pub struct NewIconUnsubscribe;

/// A helper struct to handle `NewIcon` signal
pub struct NewIconSignal;

/// The match rule for the signal from the item of `address`.
pub open spec fn new_icon_rule(address: Seq<u8>) -> Seq<u8> {
    new_icon_match(address).text()
}

/// The constraints of that rule.
pub open spec fn new_icon_match(address: Seq<u8>) -> MatchRule {
    MatchRule {
        sender: Some(address),
        interface: Some("org.kde.StatusNotifierItem".spec_bytes()),
        path: Some("/StatusNotifierItem".spec_bytes()),
        member: Some("NewIcon".spec_bytes()),
    }
}

/// Whether `m` is the signal from the item of `address`.
pub open spec fn is_new_icon(m: IncomingMessage, address: &str) -> bool {
    &&& m.message_type == MessageType::Signal
    &&& opt_is(m.interface, "org.kde.StatusNotifierItem")
    &&& opt_is(m.path, "/StatusNotifierItem")
    &&& opt_is(m.member, "NewIcon")
    &&& opt_is(m.sender, address)
}

impl NewIconSubscribe {
    /// Writes the `AddMatch` call for the signal into `buf`.
    ///
    /// # Errors
    ///
    /// Returns an error if the rule or the message doesn't fit.
    pub fn encode(args: &str, buf: &mut [u8]) -> (r: Result<usize, EncodeError>)
        ensures
            ({
                let rule = new_icon_rule(args.spec_bytes());
                if rule.len() > RULE_BUFFER_LEN {
                    r == Err::<usize, EncodeError>(EncodeError::BufferTooSmall) && final(buf)@ == old(buf)@
                } else {
                    encoded_len(r, old(buf)@, final(buf)@, add_match_message(rule))
                }
            }),
    {
        let address = args;
        Subscribe::encode(buf, Some(address), Some("/StatusNotifierItem"), Some("org.kde.StatusNotifierItem"), Some("NewIcon"))
    }
}

impl NewIconUnsubscribe {
    /// Writes the `RemoveMatch` call for the signal into `buf`.
    ///
    /// # Errors
    ///
    /// Returns an error if the rule or the message doesn't fit.
    pub fn encode<'b>(args: &str, buf: &'b mut [u8]) -> (r: Result<&'b [u8], EncodeError>)
        ensures
            ({
                let rule = new_icon_rule(args.spec_bytes());
                if rule.len() > RULE_BUFFER_LEN {
                    r is Err && r->Err_0 == EncodeError::BufferTooSmall && final(buf)@ == old(buf)@
                } else {
                    encoded(r, old(buf)@, final(buf)@, remove_match_message(rule))
                }
            }),
    {
        let address = args;
        Unsubscribe::encode((Some(address), Some("/StatusNotifierItem"), Some("org.kde.StatusNotifierItem"), Some("NewIcon")), buf)
    }
}

impl NewIconSignal {
    /// Returns true if given message represents the signal
    pub fn matches(message: IncomingMessage<'_>, address: &str) -> (r: bool)
        ensures
            r == is_new_icon(message, address),
    {
        message.message_type == MessageType::Signal && opt_str_is(message.interface, "org.kde.StatusNotifierItem")
            && opt_str_is(message.path, "/StatusNotifierItem") && opt_str_is(message.member, "NewIcon")
            && opt_str_is(message.sender, address)
    }
}


/// The signals that the `NewIcon` subscription for `address` delivers are
/// exactly those that `NewIconSignal::matches` accepts for `address`.
pub proof fn lemma_new_icon_subscription_matches(m: IncomingMessage, address: &str)
    ensures
        new_icon_match(address.spec_bytes()).admits(m) == is_new_icon(m, address),
{
}


/// The `NewIcon` signal that the item of `address` emits is recognised by
/// `NewIconSignal::matches` for `address`.
pub proof fn lemma_host_sees_item_new_icon(m: IncomingMessage, address: &str)
    requires
        carries_message(m, new_icon_header(), Seq::empty()),
        opt_is(m.sender, address),
    ensures
        is_new_icon(m, address),
{
}

} // verus!
