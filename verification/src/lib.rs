//! Encoder for seven-segment displays whose segments are wired to seven
//! independent output lines.
//!
//! Put the seven lines into a `SevenSegmentPins`, turn it into a
//! `SevenSegment` with the `with_common` method that matches the wiring, and
//! call `set` with the digit to show.

pub mod display;
pub mod erased;
pub mod glyph;
pub mod pin;
pub mod polarity;
mod sealed;

pub use crate::display::{SevenSegment, SevenSegmentPins};
pub use crate::glyph::GlyphPattern;
pub use crate::pin::OutputPin;
pub use crate::polarity::{Anode, Cathode, Polarity};
