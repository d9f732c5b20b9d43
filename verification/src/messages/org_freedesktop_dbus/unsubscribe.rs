//! `Unsubscribe`: `RemoveMatch` with a rule built from given constraints.
use super::bus::encode_bus_call_str;
use super::remove_match::remove_match_message;
use super::add_match::add_match_message;
use super::rule::{Rule, RULE_BUFFER_LEN};
use super::subscribe::subscription_match;
use vstd::string::StringSliceAdditionalSpecFns;
use crate::encoder::encoded;
use crate::error::EncodeError;
use vstd::prelude::*;

verus! {

/// A helper to build `RemoveMatch` message.
pub struct Unsubscribe;

impl Unsubscribe {
    /// Builds `RemoveMatch` message for the constraints `(sender, path, interface, member)`.
    ///
    /// # Errors
    ///
    /// Returns an error if the rule is longer than `RULE_BUFFER_LEN` or the
    /// message does not fit into `buf`.
    pub fn encode<'b>(
        args: (Option<&str>, Option<&str>, Option<&str>, Option<&str>),
        buf: &'b mut [u8],
    ) -> (r: Result<&'b [u8], EncodeError>)
        ensures
            ({
                let text = subscription_match(args.0, args.1, args.2, args.3).text();
                if text.len() > RULE_BUFFER_LEN {
                    r is Err && r->Err_0 == EncodeError::BufferTooSmall && final(buf)@ == old(buf)@
                } else {
                    encoded(r, old(buf)@, final(buf)@, remove_match_message(text))
                }
            }),
    {
        let (sender, path, interface, member) = args;
        let rule = Rule::format(sender, interface, path, member)?;
        encode_bus_call_str("RemoveMatch", rule.as_slice(), buf)
    }
}

/// `Unsubscribe` given the arguments of a `Subscribe` asks the bus to drop the
/// rule that the `Subscribe` asked it to add, for the same signals: both
/// calls carry the same rule text, so both are refused on the same arguments,
/// and they differ only in the member called.
pub proof fn lemma_unsubscribe_undoes_subscribe(
    sender: Option<&str>,
    path: Option<&str>,
    interface: Option<&str>,
    member: Option<&str>,
)
    ensures
        ({
            let rule = subscription_match(sender, path, interface, member);
            &&& add_match_message(rule.text()) == crate::messages::org_freedesktop_dbus::bus::bus_call(
                "AddMatch".spec_bytes(),
                "s".spec_bytes(),
                seq![crate::wire::Wire::Str(rule.text())],
            )
            &&& remove_match_message(rule.text()) == crate::messages::org_freedesktop_dbus::bus::bus_call(
                "RemoveMatch".spec_bytes(),
                "s".spec_bytes(),
                seq![crate::wire::Wire::Str(rule.text())],
            )
        }),
{
}

} // verus!
