use crate::moves::MoveWidth;
use vstd::prelude::*;

verus! {

/// The puzzles that scrambles are made for, named by their layers per axis.
#[derive(Debug, PartialEq, Eq, Clone, Copy, Structural)]
pub enum Cube {
    ThreeByThree,
    FourByFour,
    FiveByFive,
    SixBySix,
    SevenBySeven,
}

impl Cube {
    /// The number of moves in a scramble when the caller names none.
    pub open spec fn default_length(self) -> usize {
        match self {
            Cube::ThreeByThree => 20,
            Cube::FourByFour => 40,
            Cube::FiveByFive => 60,
            Cube::SixBySix => 80,
            Cube::SevenBySeven => 100,
        }
    }

    /// The widths that occur in a scramble of this puzzle: single layers
    /// everywhere, wide moves from four layers on, three-layer moves from
    /// six layers on.
    pub open spec fn uses_width(self, width: MoveWidth) -> bool {
        match self {
            Cube::ThreeByThree => width == MoveWidth::Single,
            Cube::FourByFour | Cube::FiveByFive => width != MoveWidth::ThreeWide,
            Cube::SixBySix | Cube::SevenBySeven => true,
        }
    }
}

} // verus!
