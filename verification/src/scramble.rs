use crate::cube::Cube;
use crate::generators;
use crate::generators::validator::{no_axis_sandwich, no_combinable_adjacency};
use crate::moves::{move_token, Move};
use vstd::prelude::*;

verus! {

/// A sequence of moves, in the order in which they are to be performed.
#[derive(Debug)]
pub struct Scramble {
    pub moves: Vec<Move>,
}

/// The text of a sequence: the token of each move in order, each followed by
/// one space.
pub open spec fn render(moves: Seq<Move>) -> Seq<char>
    decreases moves.len(),
{
    if moves.len() == 0 {
        Seq::<char>::empty()
    } else {
        render(moves.drop_last()) + move_token(moves.last()) + seq![' ']
    }
}

impl Scramble {
    /// Generates a scramble for `cube`, of `length` moves or of the puzzle's
    /// default length.
    pub fn generate(cube: Cube, length: Option<usize>) -> (scramble: Scramble)
        ensures
            scramble.moves@.len() == length.unwrap_or(cube.default_length()),
            no_combinable_adjacency(scramble.moves@),
            no_axis_sandwich(scramble.moves@),
            forall|i: int|
                0 <= i < scramble.moves@.len() ==> cube.uses_width(
                    (#[trigger] scramble.moves@[i]).move_width,
                ),
    {
        match cube {
            Cube::ThreeByThree => generators::three::generate(length),
            Cube::FourByFour => generators::four::generate(length),
            Cube::FiveByFive => generators::five::generate(length),
            Cube::SixBySix => generators::six::generate(length),
            Cube::SevenBySeven => generators::seven::generate(length),
        }
    }

    /// The scramble as text, ready to print.
    pub fn to_string(&self) -> (s: String)
        ensures
            s@ == render(self.moves@),
    {
        let mut text = String::new();
        let mut i: usize = 0;
        while i < self.moves.len()
            invariant
                i <= self.moves@.len(),
                text@ == render(self.moves@.take(i as int)),
            decreases self.moves@.len() - i,
        {
            let token = self.moves[i].to_string();
            let ghost before = text@;
            text.append(token.as_str());
            text.append(" ");
            proof {
                let next = self.moves@.take(i + 1);
                assert(next.drop_last() =~= self.moves@.take(i as int));
                reveal_strlit(" ");
                assert(text@ =~= before + move_token(next.last()) + seq![' ']);
            }
            i = i + 1;
        }
        assert(self.moves@.take(i as int) =~= self.moves@);
        text
    }
}

} // verus!
