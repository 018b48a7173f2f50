//! The trigger: exact match of an inbound message against a fixed command
//! string.  The match is case- and whitespace-sensitive; note that the
//! configured command ends in a space, so only messages carrying that
//! trailing space start a session.

use vstd::prelude::*;

verus! {

/// The characters of the trigger command, which all contracts that speak
/// of triggering compare against.
pub open spec fn trigger_spec() -> Seq<char> {
    "!pomodomo "@
}

/// The trigger command as a string slice, for callers that need to display
/// or compare it.
pub fn trigger_text() -> (r: &'static str)
    ensures
        r@ == trigger_spec(),
{
    "!pomodomo "
}

/// Decides whether an inbound message starts a session: true exactly when
/// the message equals the trigger command.
pub fn is_trigger(text: &str) -> (r: bool)
    ensures
        r == (text@ == trigger_spec()),
{
    let t = String::from_str(text);
    let cmd = String::from_str(trigger_text());
    t == cmd
}

} // verus!
