//! The output line that one segment is wired to.

use vstd::prelude::*;

verus! {

/// A push-pull output line that can be driven high or low.
///
/// The display drives its seven lines through this trait and through nothing
/// else, so whatever is proved of a display holds of lines whose `set_high` and
/// `set_low` keep the two promises below. A line that cannot fail says so in
/// the `ensures` of its own `set_high` and `set_low`; a display on seven such
/// lines is then known never to fail.
pub trait OutputPin {
    /// What a failed attempt to drive the line reports.
    type Error;

    /// The level the line is driven to: `true` for high.
    spec fn is_high(&self) -> bool;

    /// Drives the line high. After a success the line is high; after a failure
    /// nothing is known of it.
    fn set_high(&mut self) -> (outcome: Result<(), Self::Error>)
        ensures
            outcome is Ok ==> final(self).is_high(),
    ;

    /// Drives the line low. After a success the line is low; after a failure
    /// nothing is known of it.
    fn set_low(&mut self) -> (outcome: Result<(), Self::Error>)
        ensures
            outcome is Ok ==> !final(self).is_high(),
    ;
}

/// `outcome` is what a call of the method for the level `high` can report on
/// a line of type `P`: a call of `set_high` where `high` holds, of `set_low`
/// where it does not.
pub open spec fn reported<P: OutputPin>(high: bool, outcome: Result<(), P::Error>) -> bool {
    &&& high ==> exists|line: &mut P| #[trigger] call_ensures(P::set_high, (line,), outcome)
    &&& !high ==> exists|line: &mut P| #[trigger] call_ensures(P::set_low, (line,), outcome)
}

/// A call of the method for the level `high` can succeed on a line of type `P`.
pub open spec fn succeeded<P: OutputPin>(high: bool) -> bool {
    exists|outcome: Result<(), P::Error>| outcome is Ok && #[trigger] reported::<P>(high, outcome)
}

/// No call of `set_high` or `set_low` on a line of type `P` reports a failure.
pub open spec fn never_fails<P: OutputPin>() -> bool {
    forall|high: bool, outcome: Result<(), P::Error>| #[trigger] reported::<P>(high, outcome) ==> outcome is Ok
}

/// Drives `pin` to the level `high`: makes one call of the line's `set_high`
/// where `high` holds, of its `set_low` where it does not, and hands back
/// what that call reported.
///
/// The line after the call and the outcome are those of that one call on the
/// line as it was: `line` below is the borrow that the call was made
/// through. After a success the line is at the level asked for.
pub fn drive<P: OutputPin>(pin: &mut P, high: bool) -> (outcome: Result<(), P::Error>)
    ensures
        high ==> exists|line: &mut P|
            mut_ref_current(line) == *old(pin) && mut_ref_future(line) == *final(pin)
                && #[trigger] call_ensures(P::set_high, (line,), outcome),
        !high ==> exists|line: &mut P|
            mut_ref_current(line) == *old(pin) && mut_ref_future(line) == *final(pin)
                && #[trigger] call_ensures(P::set_low, (line,), outcome),
        reported::<P>(high, outcome),
        outcome is Ok ==> final(pin).is_high() == high,
{
    if high {
        pin.set_high()
    } else {
        pin.set_low()
    }
}

} // verus!
