//! The vocabulary of syntax highlighting: the classes a stretch of text can
//! fall into and the switches of a language's rule. Nothing assigns the
//! classes yet.

use vstd::prelude::*;

verus! {

/// Switches that say which elements of a language are highlighted.
#[derive(Copy, Clone, PartialEq, Eq, Debug, Structural)]
pub struct HighlightParams {
    bits: u8,
}

/// Bit of [`HighlightParams`]: string literals are highlighted.
pub const HIGHLIGHT_STRINGS: u8 = 1;

/// Bit of [`HighlightParams`]: numbers are highlighted.
pub const HIGHLIGHT_NUMBERS: u8 = 2;

impl HighlightParams {
    /// The switches as a bit set.
    pub closed spec fn spec_bits(self) -> u8 {
        self.bits
    }

    /// No switch set.
    pub fn empty() -> (params: Self)
        ensures
            params.spec_bits() == 0,
    {
        HighlightParams { bits: 0 }
    }

    /// The switches of `bits`; bits that name no switch are dropped.
    pub fn from_bits_truncate(bits: u8) -> (params: Self)
        ensures
            params.spec_bits() == bits & 3,
    {
        HighlightParams { bits: bits & 3 }
    }

    /// The switches as a bit set.
    pub fn bits(&self) -> (bits: u8)
        ensures
            bits == self.spec_bits(),
    {
        self.bits
    }

    /// Whether every switch of `other` is set here too.
    pub fn contains(&self, other: HighlightParams) -> (all: bool)
        ensures
            all == (self.spec_bits() & other.spec_bits() == other.spec_bits()),
    {
        self.bits & other.bits == other.bits
    }
}

/// The class of a stretch of text.
#[derive(Copy, Clone, PartialEq, Eq, Debug, Structural)]
pub enum HighlightType {
    Normal,
    NonPrint,
    SingleLineComment,
    MultiLineComment,
    Keyword,
    String,
    Number,
    SearchMatch,
}

} // verus!
