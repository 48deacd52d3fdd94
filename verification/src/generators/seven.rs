use crate::generators::validator::{
    generate_validated_scramble, no_axis_sandwich, no_combinable_adjacency,
};
use crate::moves::MoveWidth;
use crate::random::random_below;
use crate::scramble::Scramble;
use rand::rngs::ThreadRng;
use vstd::prelude::*;

verus! {

/// The width that a roll of a ten-sided die stands for on the seven-layer
/// puzzle: five rolls in ten give a single layer, three a wide move, two a
/// three-layer move.
pub open spec fn spec_width_for_roll(roll: u32) -> MoveWidth {
    if roll <= 4 {
        MoveWidth::Single
    } else if roll <= 7 {
        MoveWidth::Wide
    } else {
        MoveWidth::ThreeWide
    }
}

/// The width for a die roll on the seven-layer puzzle.
pub fn width_for_roll(roll: u32) -> (width: MoveWidth)
    ensures
        width == spec_width_for_roll(roll),
{
    if roll <= 4 {
        MoveWidth::Single
    } else if roll <= 7 {
        MoveWidth::Wide
    } else {
        MoveWidth::ThreeWide
    }
}

/// Generates a scramble for the seven-layer puzzle: a hundred moves unless
/// `length` says otherwise.
pub fn generate(length: Option<usize>) -> (scramble: Scramble)
    ensures
        scramble.moves@.len() == length.unwrap_or(100),
        no_combinable_adjacency(scramble.moves@),
        no_axis_sandwich(scramble.moves@),
{
    let mut rng = rand::rng();
    let width_selector = |g: &mut ThreadRng| -> (width: MoveWidth)
        { width_for_roll(random_below(g, 10)) };
    let moves = generate_validated_scramble(&mut rng, length.unwrap_or(100), width_selector);
    Scramble { moves }
}

} // verus!
