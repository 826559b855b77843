//! The two ways a display's shared electrode is wired.

use vstd::prelude::*;
use crate::glyph::{blank, GlyphPattern};
use crate::sealed::Sealed;

verus! {

/// The wiring of the shared electrode, fixed for a display when it is built.
///
/// There are two wirings, `Anode` and `Cathode`, and no others can be added.
pub trait Polarity: Sealed {
    /// Whether the shared electrode is the anode, so that a lit segment is a low line.
    spec fn is_anode() -> bool;

    /// Whether the shared electrode is the anode.
    fn anode() -> (anode: bool)
        ensures
            anode == Self::is_anode(),
    ;
}

/// Common anode: a segment is lit by driving its line low.
#[derive(Clone, Copy, Debug)]
pub struct Anode;

/// Common cathode: a segment is lit by driving its line high.
#[derive(Clone, Copy, Debug)]
pub struct Cathode;

impl Sealed for Anode {
}

impl Sealed for Cathode {
}

impl Polarity for Anode {
    open spec fn is_anode() -> bool {
        true
    }

    fn anode() -> (anode: bool) {
        true
    }
}

impl Polarity for Cathode {
    open spec fn is_anode() -> bool {
        false
    }

    fn anode() -> (anode: bool) {
        false
    }
}

/// The level of the line of a segment: high exactly when the segment is lit
/// and the wiring is common cathode, or unlit and the wiring is common anode.
pub open spec fn line_high(lit: bool, anode: bool) -> bool {
    lit != anode
}

/// The levels of the seven lines that show `pattern`, line `a` first.
pub open spec fn line_levels(pattern: GlyphPattern, anode: bool) -> Seq<bool> {
    Seq::new(7, |i: int| line_high(pattern.segments()[i], anode))
}

/// The level to drive the line of a segment to.
pub fn level(lit: bool, anode: bool) -> (high: bool)
    ensures
        high == line_high(lit, anode),
{
    lit != anode
}

/// The levels to drive the seven lines to so that they show `pattern`, line
/// `a` first.
pub fn levels(pattern: GlyphPattern, anode: bool) -> (high: [bool; 7])
    ensures
        high@ == line_levels(pattern, anode),
{
    let high: [bool; 7] = [
        level(pattern.a, anode),
        level(pattern.b, anode),
        level(pattern.c, anode),
        level(pattern.d, anode),
        level(pattern.e, anode),
        level(pattern.f, anode),
        level(pattern.g, anode),
    ];
    assert(high@ =~= line_levels(pattern, anode));
    high
}

/// The two wirings mirror each other: the level of a line under common
/// cathode is the negation of its level under common anode, for every pattern
/// and every segment.
pub proof fn lemma_polarity_inversion(pattern: GlyphPattern, segment: int)
    requires
        0 <= segment < 7,
    ensures
        line_levels(pattern, false)[segment] == !line_levels(pattern, true)[segment],
        line_levels(pattern, false)[segment] == pattern.segments()[segment],
{
}

/// Under common cathode the blank pattern is seven low lines, under common
/// anode seven high lines.
pub proof fn lemma_blank_levels(anode: bool)
    ensures
        line_levels(blank(), anode) == Seq::new(7, |i: int| anode),
{
    assert(line_levels(blank(), anode) =~= Seq::new(7, |i: int| anode));
}

} // verus!
