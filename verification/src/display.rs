//! The display: seven owned lines and the wiring they share.

use vstd::prelude::*;
use core::marker::PhantomData;
use crate::glyph::{decimal_glyph, hex_glyph, lookup, lookup_hex, GlyphPattern};
use crate::pin::{drive, never_fails, reported, succeeded, OutputPin};
use crate::polarity::{levels, line_levels, Anode, Cathode, Polarity};

verus! {

/// The seven lines of a display, one per segment.
///
/// ```text
///  ________
/// |\__a___/|
/// | |    | |
/// |f|    |b|
/// | |____| |
/// |/  g   \|
/// |\______/|
/// | |    | |
/// |e|    |c|
/// | |____| |
/// |/__d___\|
/// ```
pub struct SevenSegmentPins<A, B, C, D, E, F, G> {
    pub a: A,
    pub b: B,
    pub c: C,
    pub d: D,
    pub e: E,
    pub f: F,
    pub g: G,
}

/// A seven-segment display with its lines and, in `Common`, its wiring.
///
/// Built from `SevenSegmentPins` by one of its `with_common` methods.
pub struct SevenSegment<A, B, C, D, E, F, G, Common> {
    pins: SevenSegmentPins<A, B, C, D, E, F, G>,
    common: PhantomData<Common>,
}

impl<A, B, C, D, E, F, G> SevenSegmentPins<A, B, C, D, E, F, G> {
    /// Builds the display with the wiring `Common`. The lines move into it as they are.
    pub fn with_common<Common: Polarity>(self) -> (display: SevenSegment<A, B, C, D, E, F, G, Common>)
        ensures
            display.pins() == self,
    {
        SevenSegment { pins: self, common: PhantomData }
    }

    /// Builds a common-cathode display: `with_common::<Cathode>()`.
    pub fn with_common_cathode(self) -> (display: SevenSegment<A, B, C, D, E, F, G, Cathode>)
        ensures
            display.pins() == self,
    {
        self.with_common::<Cathode>()
    }

    /// Builds a common-anode display: `with_common::<Anode>()`.
    pub fn with_common_anode(self) -> (display: SevenSegment<A, B, C, D, E, F, G, Anode>)
        ensures
            display.pins() == self,
    {
        self.with_common::<Anode>()
    }
}

impl<A, B, C, D, E, F, G, Common> SevenSegment<A, B, C, D, E, F, G, Common> {
    /// Builds the display from its seven lines, with the wiring `Common`.
    /// The lines move into it as they are.
    pub fn new(a: A, b: B, c: C, d: D, e: E, f: F, g: G) -> (display: Self)
        ensures
            display.pins() == (SevenSegmentPins { a, b, c, d, e, f, g }),
    {
        SevenSegment { pins: SevenSegmentPins { a, b, c, d, e, f, g }, common: PhantomData }
    }

    /// The lines that the display owns.
    pub closed spec fn pins(&self) -> SevenSegmentPins<A, B, C, D, E, F, G> {
        self.pins
    }
}

impl<A, B, C, D, E, F, G, Common, Fault> SevenSegment<A, B, C, D, E, F, G, Common> where
    A: OutputPin<Error = Fault>,
    B: OutputPin<Error = Fault>,
    C: OutputPin<Error = Fault>,
    D: OutputPin<Error = Fault>,
    E: OutputPin<Error = Fault>,
    F: OutputPin<Error = Fault>,
    G: OutputPin<Error = Fault>,
    Common: Polarity,
 {
    /// The levels that the seven lines are driven to, line `a` first.
    pub open spec fn lines(&self) -> Seq<bool> {
        seq![
            self.pins().a.is_high(),
            self.pins().b.is_high(),
            self.pins().c.is_high(),
            self.pins().d.is_high(),
            self.pins().e.is_high(),
            self.pins().f.is_high(),
            self.pins().g.is_high(),
        ]
    }

    /// The lines show `pattern`: each is at the level that the wiring asks
    /// for its segment.
    pub open spec fn shows(&self, pattern: GlyphPattern) -> bool {
        self.lines() == line_levels(pattern, Common::is_anode())
    }

    /// What an attempt to show `pattern` leaves when line number `count`
    /// fails, counting `a` as 0: the `count` lines before it are at the
    /// levels of `pattern` and every line after it is as it was in `before`.
    /// Of the failed line itself this says nothing.
    pub open spec fn stopped_at(&self, before: Self, pattern: GlyphPattern, count: int) -> bool {
        let levels = line_levels(pattern, Common::is_anode());
        &&& 0 <= count < 7
        &&& forall|i: int| 0 <= i < count ==> self.lines()[i] == levels[i]
        &&& count < 1 ==> self.pins().b == before.pins().b
        &&& count < 2 ==> self.pins().c == before.pins().c
        &&& count < 3 ==> self.pins().d == before.pins().d
        &&& count < 4 ==> self.pins().e == before.pins().e
        &&& count < 5 ==> self.pins().f == before.pins().f
        &&& count < 6 ==> self.pins().g == before.pins().g
    }

    /// The calls that an attempt to show `pattern` made when it ended with
    /// `outcome` at line number `count`, counting `a` as 0 and taking 7 for an
    /// attempt that reached the end: the call on each of the `count` lines
    /// before succeeded, and `outcome` is what the call on line `count`
    /// reported.
    pub open spec fn called(pattern: GlyphPattern, count: int, outcome: Result<(), Fault>) -> bool {
        let levels = line_levels(pattern, Common::is_anode());
        &&& count >= 1 ==> succeeded::<A>(levels[0])
        &&& count >= 2 ==> succeeded::<B>(levels[1])
        &&& count >= 3 ==> succeeded::<C>(levels[2])
        &&& count >= 4 ==> succeeded::<D>(levels[3])
        &&& count >= 5 ==> succeeded::<E>(levels[4])
        &&& count >= 6 ==> succeeded::<F>(levels[5])
        &&& count >= 7 ==> succeeded::<G>(levels[6])
        &&& count == 0 ==> reported::<A>(levels[0], outcome)
        &&& count == 1 ==> reported::<B>(levels[1], outcome)
        &&& count == 2 ==> reported::<C>(levels[2], outcome)
        &&& count == 3 ==> reported::<D>(levels[3], outcome)
        &&& count == 4 ==> reported::<E>(levels[4], outcome)
        &&& count == 5 ==> reported::<F>(levels[5], outcome)
        &&& count == 6 ==> reported::<G>(levels[6], outcome)
    }

    /// None of the seven lines can fail.
    pub open spec fn reliable() -> bool {
        &&& never_fails::<A>()
        &&& never_fails::<B>()
        &&& never_fails::<C>()
        &&& never_fails::<D>()
        &&& never_fails::<E>()
        &&& never_fails::<F>()
        &&& never_fails::<G>()
    }

    /// Drives the seven lines to show `pattern`, in the order a, b, c, d, e,
    /// f, g, with one call on each, and stops at the first line that fails.
    ///
    /// The outcome is that of the calls: `Ok` when all seven succeeded, else
    /// what the first failing line reported, so lines that cannot fail give
    /// `Ok`. The last clause says of every line up to the one where the
    /// attempt ended that it is as one call of its own method for its level
    /// left it; `line` there is the borrow that the call was made through and
    /// `report` what the call reported.
    pub fn show(&mut self, pattern: GlyphPattern) -> (outcome: Result<(), Fault>)
        ensures
            outcome is Ok ==> final(self).shows(pattern),
            outcome is Ok && old(self).shows(pattern) ==> final(self).lines() == old(self).lines(),
            outcome is Ok ==> Self::called(pattern, 7, outcome),
            outcome is Err ==> exists|count: int| #[trigger]
                final(self).stopped_at(*old(self), pattern, count) && Self::called(pattern, count, outcome),
            Self::reliable() ==> outcome is Ok,
            exists|count: int|
                0 <= count <= 7 && (count == 7 <==> outcome is Ok) && #[trigger] Self::called(pattern, count, outcome)
                && (count < 7 ==> final(self).stopped_at(*old(self), pattern, count))
                && (exists|line: &mut A, report: Result<(), Fault>|
                    #![trigger call_ensures(A::set_high, (line,), report)]
                    #![trigger call_ensures(A::set_low, (line,), report)]
                    mut_ref_current(line) == old(self).pins().a
                        && mut_ref_future(line) == final(self).pins().a
                        && (count == 0 ==> report == outcome)
                        && (count != 0 ==> report is Ok)
                        && (line_levels(pattern, Common::is_anode())[0] ==> call_ensures(A::set_high, (line,), report))
                        && (!line_levels(pattern, Common::is_anode())[0] ==> call_ensures(A::set_low, (line,), report)))
                && (count >= 1 ==> exists|line: &mut B, report: Result<(), Fault>|
                    #![trigger call_ensures(B::set_high, (line,), report)]
                    #![trigger call_ensures(B::set_low, (line,), report)]
                    mut_ref_current(line) == old(self).pins().b
                        && mut_ref_future(line) == final(self).pins().b
                        && (count == 1 ==> report == outcome)
                        && (count != 1 ==> report is Ok)
                        && (line_levels(pattern, Common::is_anode())[1] ==> call_ensures(B::set_high, (line,), report))
                        && (!line_levels(pattern, Common::is_anode())[1] ==> call_ensures(B::set_low, (line,), report)))
                && (count >= 2 ==> exists|line: &mut C, report: Result<(), Fault>|
                    #![trigger call_ensures(C::set_high, (line,), report)]
                    #![trigger call_ensures(C::set_low, (line,), report)]
                    mut_ref_current(line) == old(self).pins().c
                        && mut_ref_future(line) == final(self).pins().c
                        && (count == 2 ==> report == outcome)
                        && (count != 2 ==> report is Ok)
                        && (line_levels(pattern, Common::is_anode())[2] ==> call_ensures(C::set_high, (line,), report))
                        && (!line_levels(pattern, Common::is_anode())[2] ==> call_ensures(C::set_low, (line,), report)))
                && (count >= 3 ==> exists|line: &mut D, report: Result<(), Fault>|
                    #![trigger call_ensures(D::set_high, (line,), report)]
                    #![trigger call_ensures(D::set_low, (line,), report)]
                    mut_ref_current(line) == old(self).pins().d
                        && mut_ref_future(line) == final(self).pins().d
                        && (count == 3 ==> report == outcome)
                        && (count != 3 ==> report is Ok)
                        && (line_levels(pattern, Common::is_anode())[3] ==> call_ensures(D::set_high, (line,), report))
                        && (!line_levels(pattern, Common::is_anode())[3] ==> call_ensures(D::set_low, (line,), report)))
                && (count >= 4 ==> exists|line: &mut E, report: Result<(), Fault>|
                    #![trigger call_ensures(E::set_high, (line,), report)]
                    #![trigger call_ensures(E::set_low, (line,), report)]
                    mut_ref_current(line) == old(self).pins().e
                        && mut_ref_future(line) == final(self).pins().e
                        && (count == 4 ==> report == outcome)
                        && (count != 4 ==> report is Ok)
                        && (line_levels(pattern, Common::is_anode())[4] ==> call_ensures(E::set_high, (line,), report))
                        && (!line_levels(pattern, Common::is_anode())[4] ==> call_ensures(E::set_low, (line,), report)))
                && (count >= 5 ==> exists|line: &mut F, report: Result<(), Fault>|
                    #![trigger call_ensures(F::set_high, (line,), report)]
                    #![trigger call_ensures(F::set_low, (line,), report)]
                    mut_ref_current(line) == old(self).pins().f
                        && mut_ref_future(line) == final(self).pins().f
                        && (count == 5 ==> report == outcome)
                        && (count != 5 ==> report is Ok)
                        && (line_levels(pattern, Common::is_anode())[5] ==> call_ensures(F::set_high, (line,), report))
                        && (!line_levels(pattern, Common::is_anode())[5] ==> call_ensures(F::set_low, (line,), report)))
                && (count >= 6 ==> exists|line: &mut G, report: Result<(), Fault>|
                    #![trigger call_ensures(G::set_high, (line,), report)]
                    #![trigger call_ensures(G::set_low, (line,), report)]
                    mut_ref_current(line) == old(self).pins().g
                        && mut_ref_future(line) == final(self).pins().g
                        && (count == 6 ==> report == outcome)
                        && (count != 6 ==> report is Ok)
                        && (line_levels(pattern, Common::is_anode())[6] ==> call_ensures(G::set_high, (line,), report))
                        && (!line_levels(pattern, Common::is_anode())[6] ==> call_ensures(G::set_low, (line,), report))),
    {
        let high: [bool; 7] = levels(pattern, Common::anode());
        let first = drive(&mut self.pins.a, high[0]);
        if let Err(fault) = first {
            let outcome: Result<(), Fault> = Err(fault);
            proof {
                assert(self.stopped_at(*old(self), pattern, 0));
                assert(Self::called(pattern, 0, outcome));
            }
            return outcome;
        }
        assert(succeeded::<A>(high[0]));
        let second = drive(&mut self.pins.b, high[1]);
        if let Err(fault) = second {
            let outcome: Result<(), Fault> = Err(fault);
            proof {
                assert(self.stopped_at(*old(self), pattern, 1));
                assert(Self::called(pattern, 1, outcome));
            }
            return outcome;
        }
        assert(succeeded::<B>(high[1]));
        let third = drive(&mut self.pins.c, high[2]);
        if let Err(fault) = third {
            let outcome: Result<(), Fault> = Err(fault);
            proof {
                assert(self.stopped_at(*old(self), pattern, 2));
                assert(Self::called(pattern, 2, outcome));
            }
            return outcome;
        }
        assert(succeeded::<C>(high[2]));
        let fourth = drive(&mut self.pins.d, high[3]);
        if let Err(fault) = fourth {
            let outcome: Result<(), Fault> = Err(fault);
            proof {
                assert(self.stopped_at(*old(self), pattern, 3));
                assert(Self::called(pattern, 3, outcome));
            }
            return outcome;
        }
        assert(succeeded::<D>(high[3]));
        let fifth = drive(&mut self.pins.e, high[4]);
        if let Err(fault) = fifth {
            let outcome: Result<(), Fault> = Err(fault);
            proof {
                assert(self.stopped_at(*old(self), pattern, 4));
                assert(Self::called(pattern, 4, outcome));
            }
            return outcome;
        }
        assert(succeeded::<E>(high[4]));
        let sixth = drive(&mut self.pins.f, high[5]);
        if let Err(fault) = sixth {
            let outcome: Result<(), Fault> = Err(fault);
            proof {
                assert(self.stopped_at(*old(self), pattern, 5));
                assert(Self::called(pattern, 5, outcome));
            }
            return outcome;
        }
        assert(succeeded::<F>(high[5]));
        let seventh = drive(&mut self.pins.g, high[6]);
        if let Err(fault) = seventh {
            let outcome: Result<(), Fault> = Err(fault);
            proof {
                assert(self.stopped_at(*old(self), pattern, 6));
                assert(Self::called(pattern, 6, outcome));
            }
            return outcome;
        }
        assert(succeeded::<G>(high[6]));
        assert(self.lines() =~= line_levels(pattern, Common::is_anode()));
        let outcome: Result<(), Fault> = Ok(());
        assert(Self::called(pattern, 7, outcome));
        outcome
    }

    /// Showing a pattern fixes the level of every line, whatever the lines
    /// were before: a display that was set twice to one pattern has its lines
    /// where a display that was set once has them.
    pub proof fn lemma_show_idempotent(once: Self, twice: Self, pattern: GlyphPattern)
        requires
            once.shows(pattern),
            twice.shows(pattern),
        ensures
            twice.lines() == once.lines(),
    {
    }

    /// Fail-fast: where the calls on `a` and `b` cannot fail and the call on
    /// `c` for its level cannot succeed, an attempt that failed ended at `c`.
    /// The lines of `a` and `b` are at their levels, and those of `d`, `e`,
    /// `f` and `g` are as they were: no call was made on them.
    pub proof fn lemma_failure_on_c_spares_later_lines(
        after: Self,
        before: Self,
        pattern: GlyphPattern,
        count: int,
        outcome: Result<(), Fault>,
    )
        requires
            outcome is Err,
            after.stopped_at(before, pattern, count),
            Self::called(pattern, count, outcome),
            never_fails::<A>(),
            never_fails::<B>(),
            !succeeded::<C>(line_levels(pattern, Common::is_anode())[2]),
        ensures
            count == 2,
            after.lines()[0] == line_levels(pattern, Common::is_anode())[0],
            after.lines()[1] == line_levels(pattern, Common::is_anode())[1],
            after.pins().d == before.pins().d,
            after.pins().e == before.pins().e,
            after.pins().f == before.pins().f,
            after.pins().g == before.pins().g,
    {
    }

    /// An attempt on lines that cannot fail reaches the end: it can have
    /// ended with a failure at none of the seven lines.
    pub proof fn lemma_reliable_lines_reach_the_end(pattern: GlyphPattern, count: int, outcome: Result<(), Fault>)
        requires
            Self::reliable(),
            0 <= count < 7,
            Self::called(pattern, count, outcome),
        ensures
            outcome is Ok,
    {
    }

    /// Shows the decimal digit `value`; any value above 9 blanks the display
    /// and is no failure. The outcome and the lines are those of `show` on the
    /// glyph of `value`.
    pub fn set(&mut self, value: u8) -> (outcome: Result<(), Fault>)
        ensures
            outcome is Ok ==> final(self).shows(decimal_glyph(value as int)),
            outcome is Ok && old(self).shows(decimal_glyph(value as int)) ==> final(self).lines() == old(self).lines(),
            outcome is Ok ==> Self::called(decimal_glyph(value as int), 7, outcome),
            outcome is Err ==> exists|count: int| #[trigger]
                final(self).stopped_at(*old(self), decimal_glyph(value as int), count) && Self::called(decimal_glyph(value as int), count, outcome),
            Self::reliable() ==> outcome is Ok,
            exists|count: int|
                0 <= count <= 7 && (count == 7 <==> outcome is Ok) && #[trigger] Self::called(decimal_glyph(value as int), count, outcome)
                && (count < 7 ==> final(self).stopped_at(*old(self), decimal_glyph(value as int), count))
                && (exists|line: &mut A, report: Result<(), Fault>|
                    #![trigger call_ensures(A::set_high, (line,), report)]
                    #![trigger call_ensures(A::set_low, (line,), report)]
                    mut_ref_current(line) == old(self).pins().a
                        && mut_ref_future(line) == final(self).pins().a
                        && (count == 0 ==> report == outcome)
                        && (count != 0 ==> report is Ok)
                        && (line_levels(decimal_glyph(value as int), Common::is_anode())[0] ==> call_ensures(A::set_high, (line,), report))
                        && (!line_levels(decimal_glyph(value as int), Common::is_anode())[0] ==> call_ensures(A::set_low, (line,), report)))
                && (count >= 1 ==> exists|line: &mut B, report: Result<(), Fault>|
                    #![trigger call_ensures(B::set_high, (line,), report)]
                    #![trigger call_ensures(B::set_low, (line,), report)]
                    mut_ref_current(line) == old(self).pins().b
                        && mut_ref_future(line) == final(self).pins().b
                        && (count == 1 ==> report == outcome)
                        && (count != 1 ==> report is Ok)
                        && (line_levels(decimal_glyph(value as int), Common::is_anode())[1] ==> call_ensures(B::set_high, (line,), report))
                        && (!line_levels(decimal_glyph(value as int), Common::is_anode())[1] ==> call_ensures(B::set_low, (line,), report)))
                && (count >= 2 ==> exists|line: &mut C, report: Result<(), Fault>|
                    #![trigger call_ensures(C::set_high, (line,), report)]
                    #![trigger call_ensures(C::set_low, (line,), report)]
                    mut_ref_current(line) == old(self).pins().c
                        && mut_ref_future(line) == final(self).pins().c
                        && (count == 2 ==> report == outcome)
                        && (count != 2 ==> report is Ok)
                        && (line_levels(decimal_glyph(value as int), Common::is_anode())[2] ==> call_ensures(C::set_high, (line,), report))
                        && (!line_levels(decimal_glyph(value as int), Common::is_anode())[2] ==> call_ensures(C::set_low, (line,), report)))
                && (count >= 3 ==> exists|line: &mut D, report: Result<(), Fault>|
                    #![trigger call_ensures(D::set_high, (line,), report)]
                    #![trigger call_ensures(D::set_low, (line,), report)]
                    mut_ref_current(line) == old(self).pins().d
                        && mut_ref_future(line) == final(self).pins().d
                        && (count == 3 ==> report == outcome)
                        && (count != 3 ==> report is Ok)
                        && (line_levels(decimal_glyph(value as int), Common::is_anode())[3] ==> call_ensures(D::set_high, (line,), report))
                        && (!line_levels(decimal_glyph(value as int), Common::is_anode())[3] ==> call_ensures(D::set_low, (line,), report)))
                && (count >= 4 ==> exists|line: &mut E, report: Result<(), Fault>|
                    #![trigger call_ensures(E::set_high, (line,), report)]
                    #![trigger call_ensures(E::set_low, (line,), report)]
                    mut_ref_current(line) == old(self).pins().e
                        && mut_ref_future(line) == final(self).pins().e
                        && (count == 4 ==> report == outcome)
                        && (count != 4 ==> report is Ok)
                        && (line_levels(decimal_glyph(value as int), Common::is_anode())[4] ==> call_ensures(E::set_high, (line,), report))
                        && (!line_levels(decimal_glyph(value as int), Common::is_anode())[4] ==> call_ensures(E::set_low, (line,), report)))
                && (count >= 5 ==> exists|line: &mut F, report: Result<(), Fault>|
                    #![trigger call_ensures(F::set_high, (line,), report)]
                    #![trigger call_ensures(F::set_low, (line,), report)]
                    mut_ref_current(line) == old(self).pins().f
                        && mut_ref_future(line) == final(self).pins().f
                        && (count == 5 ==> report == outcome)
                        && (count != 5 ==> report is Ok)
                        && (line_levels(decimal_glyph(value as int), Common::is_anode())[5] ==> call_ensures(F::set_high, (line,), report))
                        && (!line_levels(decimal_glyph(value as int), Common::is_anode())[5] ==> call_ensures(F::set_low, (line,), report)))
                && (count >= 6 ==> exists|line: &mut G, report: Result<(), Fault>|
                    #![trigger call_ensures(G::set_high, (line,), report)]
                    #![trigger call_ensures(G::set_low, (line,), report)]
                    mut_ref_current(line) == old(self).pins().g
                        && mut_ref_future(line) == final(self).pins().g
                        && (count == 6 ==> report == outcome)
                        && (count != 6 ==> report is Ok)
                        && (line_levels(decimal_glyph(value as int), Common::is_anode())[6] ==> call_ensures(G::set_high, (line,), report))
                        && (!line_levels(decimal_glyph(value as int), Common::is_anode())[6] ==> call_ensures(G::set_low, (line,), report))),
    {
        self.show(lookup(value))
    }

    /// Shows the hexadecimal digit `value`; any value above 15 blanks the
    /// display and is no failure. The outcome and the lines are those of `show`
    /// on the glyph of `value`.
    pub fn set_hex(&mut self, value: u8) -> (outcome: Result<(), Fault>)
        ensures
            outcome is Ok ==> final(self).shows(hex_glyph(value as int)),
            outcome is Ok && old(self).shows(hex_glyph(value as int)) ==> final(self).lines() == old(self).lines(),
            outcome is Ok ==> Self::called(hex_glyph(value as int), 7, outcome),
            outcome is Err ==> exists|count: int| #[trigger]
                final(self).stopped_at(*old(self), hex_glyph(value as int), count) && Self::called(hex_glyph(value as int), count, outcome),
            Self::reliable() ==> outcome is Ok,
            exists|count: int|
                0 <= count <= 7 && (count == 7 <==> outcome is Ok) && #[trigger] Self::called(hex_glyph(value as int), count, outcome)
                && (count < 7 ==> final(self).stopped_at(*old(self), hex_glyph(value as int), count))
                && (exists|line: &mut A, report: Result<(), Fault>|
                    #![trigger call_ensures(A::set_high, (line,), report)]
                    #![trigger call_ensures(A::set_low, (line,), report)]
                    mut_ref_current(line) == old(self).pins().a
                        && mut_ref_future(line) == final(self).pins().a
                        && (count == 0 ==> report == outcome)
                        && (count != 0 ==> report is Ok)
                        && (line_levels(hex_glyph(value as int), Common::is_anode())[0] ==> call_ensures(A::set_high, (line,), report))
                        && (!line_levels(hex_glyph(value as int), Common::is_anode())[0] ==> call_ensures(A::set_low, (line,), report)))
                && (count >= 1 ==> exists|line: &mut B, report: Result<(), Fault>|
                    #![trigger call_ensures(B::set_high, (line,), report)]
                    #![trigger call_ensures(B::set_low, (line,), report)]
                    mut_ref_current(line) == old(self).pins().b
                        && mut_ref_future(line) == final(self).pins().b
                        && (count == 1 ==> report == outcome)
                        && (count != 1 ==> report is Ok)
                        && (line_levels(hex_glyph(value as int), Common::is_anode())[1] ==> call_ensures(B::set_high, (line,), report))
                        && (!line_levels(hex_glyph(value as int), Common::is_anode())[1] ==> call_ensures(B::set_low, (line,), report)))
                && (count >= 2 ==> exists|line: &mut C, report: Result<(), Fault>|
                    #![trigger call_ensures(C::set_high, (line,), report)]
                    #![trigger call_ensures(C::set_low, (line,), report)]
                    mut_ref_current(line) == old(self).pins().c
                        && mut_ref_future(line) == final(self).pins().c
                        && (count == 2 ==> report == outcome)
                        && (count != 2 ==> report is Ok)
                        && (line_levels(hex_glyph(value as int), Common::is_anode())[2] ==> call_ensures(C::set_high, (line,), report))
                        && (!line_levels(hex_glyph(value as int), Common::is_anode())[2] ==> call_ensures(C::set_low, (line,), report)))
                && (count >= 3 ==> exists|line: &mut D, report: Result<(), Fault>|
                    #![trigger call_ensures(D::set_high, (line,), report)]
                    #![trigger call_ensures(D::set_low, (line,), report)]
                    mut_ref_current(line) == old(self).pins().d
                        && mut_ref_future(line) == final(self).pins().d
                        && (count == 3 ==> report == outcome)
                        && (count != 3 ==> report is Ok)
                        && (line_levels(hex_glyph(value as int), Common::is_anode())[3] ==> call_ensures(D::set_high, (line,), report))
                        && (!line_levels(hex_glyph(value as int), Common::is_anode())[3] ==> call_ensures(D::set_low, (line,), report)))
                && (count >= 4 ==> exists|line: &mut E, report: Result<(), Fault>|
                    #![trigger call_ensures(E::set_high, (line,), report)]
                    #![trigger call_ensures(E::set_low, (line,), report)]
                    mut_ref_current(line) == old(self).pins().e
                        && mut_ref_future(line) == final(self).pins().e
                        && (count == 4 ==> report == outcome)
                        && (count != 4 ==> report is Ok)
                        && (line_levels(hex_glyph(value as int), Common::is_anode())[4] ==> call_ensures(E::set_high, (line,), report))
                        && (!line_levels(hex_glyph(value as int), Common::is_anode())[4] ==> call_ensures(E::set_low, (line,), report)))
                && (count >= 5 ==> exists|line: &mut F, report: Result<(), Fault>|
                    #![trigger call_ensures(F::set_high, (line,), report)]
                    #![trigger call_ensures(F::set_low, (line,), report)]
                    mut_ref_current(line) == old(self).pins().f
                        && mut_ref_future(line) == final(self).pins().f
                        && (count == 5 ==> report == outcome)
                        && (count != 5 ==> report is Ok)
                        && (line_levels(hex_glyph(value as int), Common::is_anode())[5] ==> call_ensures(F::set_high, (line,), report))
                        && (!line_levels(hex_glyph(value as int), Common::is_anode())[5] ==> call_ensures(F::set_low, (line,), report)))
                && (count >= 6 ==> exists|line: &mut G, report: Result<(), Fault>|
                    #![trigger call_ensures(G::set_high, (line,), report)]
                    #![trigger call_ensures(G::set_low, (line,), report)]
                    mut_ref_current(line) == old(self).pins().g
                        && mut_ref_future(line) == final(self).pins().g
                        && (count == 6 ==> report == outcome)
                        && (count != 6 ==> report is Ok)
                        && (line_levels(hex_glyph(value as int), Common::is_anode())[6] ==> call_ensures(G::set_high, (line,), report))
                        && (!line_levels(hex_glyph(value as int), Common::is_anode())[6] ==> call_ensures(G::set_low, (line,), report))),
    {
        self.show(lookup_hex(value))
    }
}

/// A common-cathode display and a common-anode display that show the same
/// pattern have opposite levels on the line of every segment.
pub proof fn lemma_displays_mirror<A, B, C, D, E, F, G, Fault>(
    cathode: SevenSegment<A, B, C, D, E, F, G, Cathode>,
    anode: SevenSegment<A, B, C, D, E, F, G, Anode>,
    pattern: GlyphPattern,
    segment: int,
) where
    A: OutputPin<Error = Fault>,
    B: OutputPin<Error = Fault>,
    C: OutputPin<Error = Fault>,
    D: OutputPin<Error = Fault>,
    E: OutputPin<Error = Fault>,
    F: OutputPin<Error = Fault>,
    G: OutputPin<Error = Fault>,

    requires
        cathode.shows(pattern),
        anode.shows(pattern),
        0 <= segment < 7,
    ensures
        cathode.lines()[segment] == !anode.lines()[segment],
        cathode.lines()[segment] == pattern.segments()[segment],
{
}

} // verus!
