//! `Subscribe`: `AddMatch` with a rule built from given constraints.
use super::add_match::add_match_message;
use super::bus::encode_bus_call_str;
use super::rule::{opt_str, MatchRule, Rule, RULE_BUFFER_LEN};
use crate::encoder::encoded_len;
use crate::error::EncodeError;
use vstd::prelude::*;

verus! {

/// A helper to build `AddMatch` message.
pub struct Subscribe;

/// The rule for signals with the given sender, path, interface and member,
/// each left free where it is `None`.
pub open spec fn subscription_match(
    sender: Option<&str>,
    path: Option<&str>,
    interface: Option<&str>,
    member: Option<&str>,
) -> MatchRule {
    MatchRule { sender: opt_str(sender), interface: opt_str(interface), path: opt_str(path), member: opt_str(member) }
}

impl Subscribe {
    /// Builds `AddMatch` message using provided options.
    ///
    /// # Errors
    ///
    /// Returns an error if the rule is longer than `RULE_BUFFER_LEN` or the
    /// message does not fit into `buf`.
    pub fn encode(
        buf: &mut [u8],
        sender: Option<&str>,
        path: Option<&str>,
        interface: Option<&str>,
        member: Option<&str>,
    ) -> (r: Result<usize, EncodeError>)
        ensures
            ({
                let text = subscription_match(sender, path, interface, member).text();
                if text.len() > RULE_BUFFER_LEN {
                    r == Err::<usize, EncodeError>(EncodeError::BufferTooSmall) && final(buf)@ == old(buf)@
                } else {
                    encoded_len(r, old(buf)@, final(buf)@, add_match_message(text))
                }
            }),
    {
        let rule = Rule::format(sender, interface, path, member)?;
        match encode_bus_call_str("AddMatch", rule.as_slice(), buf) {
            Ok(out) => Ok(out.len()),
            Err(e) => Err(e),
        }
    }
}

} // verus!
