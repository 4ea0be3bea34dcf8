//! Mailbox validity. A mailbox is an email address, optionally paired with
//! a display name: `Name <email>` or a bare `email`. Parsing is delegated
//! to the `lettre` crate, which is also what transmits the messages, so
//! the check here agrees exactly with what the transport will accept.

use vstd::prelude::*;

verus! {

/// Whether `lettre` parses `s` as a mailbox. The result depends on the
/// characters of `s` alone.
pub uninterp spec fn is_mailbox(s: Seq<char>) -> bool;

/// Relies on `lettre::message::Mailbox::from_str`: a pure parser of
/// `Name <email>` / bare `email` strings; its success depends only on the
/// input string.
#[verifier::external_body]
pub fn mailbox_is_valid(s: &str) -> (r: bool)
    ensures
        r == is_mailbox(s@),
{
    <lettre::message::Mailbox as core::str::FromStr>::from_str(s).is_ok()
}

} // verus!
