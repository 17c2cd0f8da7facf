//! The two-element marker algebra: the possible occupants of a cell and
//! the alternation rule between them.

use vstd::prelude::*;

verus! {

/// One of the two turn-tokens that can occupy a cell. Turns alternate
/// strictly between the two variants; a fresh game starts with `First`.
#[derive(Debug, Clone, Copy, PartialEq, Eq, Structural)]
pub enum Marker {
    First,
    Second,
}

impl Marker {
    /// The other variant: `First` <-> `Second`.
    pub open spec fn spec_flip(self) -> Marker {
        match self {
            Marker::First => Marker::Second,
            Marker::Second => Marker::First,
        }
    }

    /// Alternates the turn: returns the other marker. Pure and total.
    pub fn flip(self) -> (r: Marker)
        ensures
            r == self.spec_flip(),
    {
        match self {
            Marker::First => Marker::Second,
            Marker::Second => Marker::First,
        }
    }

    /// The fixed display glyph of this marker, one distinct glyph per
    /// variant. Purely cosmetic: it carries no game semantics.
    pub fn glyph(self) -> (r: &'static str)
        ensures
            self is First ==> r@ == "⭕"@,
            self is Second ==> r@ == "❌"@,
    {
        match self {
            Marker::First => "⭕",
            Marker::Second => "❌",
        }
    }
}

impl Default for Marker {
    /// The marker that opens a fresh game.
    fn default() -> (r: Self)
        ensures
            r == Marker::First,
    {
        Marker::First
    }
}

} // verus!
