use crate::generators::validator::{
    generate_validated_scramble, no_axis_sandwich, no_combinable_adjacency, selectable,
};
use crate::moves::MoveWidth;
use crate::random::random_below;
use crate::scramble::Scramble;
use rand::rngs::ThreadRng;
use vstd::prelude::*;

verus! {

/// The width that a roll of a ten-sided die stands for on the five-layer
/// puzzle: six rolls in ten give a single layer, four a wide move.
pub open spec fn spec_width_for_roll(roll: u32) -> MoveWidth {
    if roll <= 5 {
        MoveWidth::Single
    } else {
        MoveWidth::Wide
    }
}

/// The width for a die roll on the five-layer puzzle.
pub fn width_for_roll(roll: u32) -> (width: MoveWidth)
    ensures
        width == spec_width_for_roll(roll),
{
    if roll <= 5 {
        MoveWidth::Single
    } else {
        MoveWidth::Wide
    }
}

/// Generates a scramble for the five-layer puzzle: sixty moves unless
/// `length` says otherwise, none of them three layers wide.
pub fn generate(length: Option<usize>) -> (scramble: Scramble)
    ensures
        scramble.moves@.len() == length.unwrap_or(60),
        no_combinable_adjacency(scramble.moves@),
        no_axis_sandwich(scramble.moves@),
        forall|i: int|
            0 <= i < scramble.moves@.len() ==> (#[trigger] scramble.moves@[i]).move_width
                != MoveWidth::ThreeWide,
{
    let mut rng = rand::rng();
    let width_selector = |g: &mut ThreadRng| -> (width: MoveWidth)
        ensures
            width != MoveWidth::ThreeWide,
        { width_for_roll(random_below(g, 10)) };
    let moves = generate_validated_scramble(&mut rng, length.unwrap_or(60), width_selector);
    assert forall|i: int| 0 <= i < moves@.len() implies (#[trigger] moves@[i]).move_width
        != MoveWidth::ThreeWide by {
        assert(selectable(width_selector, moves@[i].move_width));
    }
    Scramble { moves }
}

} // verus!
