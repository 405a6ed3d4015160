use vstd::prelude::*;

verus! {

/// The local date and time of the moment of the call, as text.
///
/// Calls `chrono::Local::now` and writes what it returns with `to_string`, which goes
/// through the `Display` impl of `chrono::DateTime`. That impl writes the date and the
/// time, then a space, then the offset from UTC, so the text is never empty; this is
/// all the contract claims. Two calls may give different texts. `chrono` stops the
/// program if the system clock stands before 1970.
#[verifier::external_body]
pub(crate) fn local_timestamp() -> (stamp: String)
    ensures
        stamp@.len() > 0,
{
    chrono::Local::now().to_string()
}

} // verus!
