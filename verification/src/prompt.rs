//! What is made of a line that the user typed.

use crate::text::{lowercase, owned, trimmed};
use vstd::prelude::*;

verus! {

/// The reply that stands for yes, in lowercase.
pub const YES: &'static str = "y";

/// Whether a reply says yes: it is `y` once it is in lowercase. Every other
/// reply says no.
pub open spec fn is_yes(reply: Seq<char>) -> bool {
    lowercase(reply) == YES@
}

/// The reply that a line of input holds: the line without the white space
/// around it, the end of the line included.
pub fn prompt_user_input(line: &str) -> (reply: String)
    ensures
        reply@ == trimmed(line@),
{
    owned(line.trim())
}

/// Whether a reply that is already in lowercase says yes.
pub fn is_affirmative(folded: &str) -> (yes: bool)
    ensures
        yes == (folded@ == YES@),
{
    owned(folded) == owned(YES)
}

/// Whether a reply, as [`prompt_user_input`] gave it, says yes. Case does not
/// count; anything but the one letter says no.
pub fn prompt_yes_no(reply: &str) -> (yes: bool)
    ensures
        yes == is_yes(reply@),
{
    let folded = reply.to_lowercase();
    is_affirmative(folded.as_str())
}

} // verus!
