use crate::generators::validator::{
    generate_validated_scramble, no_axis_sandwich, no_combinable_adjacency, selectable,
};
use crate::moves::MoveWidth;
use crate::scramble::Scramble;
use rand::rngs::ThreadRng;
use vstd::prelude::*;

verus! {

/// Generates a scramble for the three-layer puzzle: twenty moves unless
/// `length` says otherwise, every one of them on a single layer.
pub fn generate(length: Option<usize>) -> (scramble: Scramble)
    ensures
        scramble.moves@.len() == length.unwrap_or(20),
        no_combinable_adjacency(scramble.moves@),
        no_axis_sandwich(scramble.moves@),
        forall|i: int|
            0 <= i < scramble.moves@.len() ==> (#[trigger] scramble.moves@[i]).move_width
                == MoveWidth::Single,
{
    let mut rng = rand::rng();
    let width_selector = |g: &mut ThreadRng| -> (width: MoveWidth)
        ensures
            width == MoveWidth::Single,
        { MoveWidth::Single };
    let moves = generate_validated_scramble(&mut rng, length.unwrap_or(20), width_selector);
    assert forall|i: int| 0 <= i < moves@.len() implies (#[trigger] moves@[i]).move_width
        == MoveWidth::Single by {
        assert(selectable(width_selector, moves@[i].move_width));
    }
    Scramble { moves }
}

} // verus!
