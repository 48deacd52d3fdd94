use crate::moves::{quarter_turns, spec_same_axis, Move, MoveFace, MoveType, MoveWidth};
use rand::rngs::ThreadRng;
use vstd::prelude::*;

verus! {

/// Two moves can be merged when they turn the same face with the same width.
pub open spec fn spec_can_combine(first: Move, second: Move) -> bool {
    first.move_face == second.move_face && first.move_width == second.move_width
}

/// The amount that a number of quarter turns comes to: turns are counted
/// modulo four, and a full turn is no move at all.
pub open spec fn type_of_turns(turns: int) -> Option<MoveType> {
    let rest = turns % 4;
    if rest == 1 {
        Some(MoveType::Normal)
    } else if rest == 2 {
        Some(MoveType::Double)
    } else if rest == 3 {
        Some(MoveType::Prime)
    } else {
        None
    }
}

/// `m` with its amount replaced.
pub open spec fn with_type(m: Move, move_type: MoveType) -> Move {
    Move { move_face: m.move_face, move_type, move_width: m.move_width }
}

/// The merge of two moves on one face and width: their quarter turns add up,
/// the first move's face and width stay, and a full turn leaves nothing.
pub open spec fn spec_combine(first: Move, second: Move) -> Option<Move> {
    match type_of_turns(quarter_turns(first.move_type) + quarter_turns(second.move_type)) {
        Some(move_type) => Some(with_type(first, move_type)),
        None => None,
    }
}

/// Whether `new_move` behind `moves` would revisit the face two places back
/// across a move on the same axis.
pub open spec fn spec_parallel_conflict(moves: Seq<Move>, new_move: Move) -> bool {
    &&& moves.len() >= 2
    &&& moves[moves.len() - 2].move_face == new_move.move_face
    &&& spec_same_axis(moves[moves.len() - 2].move_face, moves[moves.len() - 1].move_face)
}

/// Whether the moves at `i` and `i + 1` could be merged.
pub open spec fn combinable_at(moves: Seq<Move>, i: int) -> bool {
    spec_can_combine(moves[i], moves[i + 1])
}

/// Whether the moves at `i`, `i + 1` and `i + 2` form a sandwich: the outer
/// two turn one face, and the middle one turns the face opposite to it.
pub open spec fn sandwich_at(moves: Seq<Move>, i: int) -> bool {
    moves[i].move_face == moves[i + 2].move_face && spec_same_axis(
        moves[i].move_face,
        moves[i + 1].move_face,
    )
}

/// No move can be merged with the one that follows it.
pub open spec fn no_combinable_adjacency(moves: Seq<Move>) -> bool {
    forall|i: int| 0 <= i && i + 1 < moves.len() ==> !#[trigger] combinable_at(moves, i)
}

/// No face is revisited two places on across a move on the same axis.
pub open spec fn no_axis_sandwich(moves: Seq<Move>) -> bool {
    forall|i: int| 0 <= i && i + 2 < moves.len() ==> !#[trigger] sandwich_at(moves, i)
}

/// A sequence in which nothing is left to merge and nothing is redundant.
pub open spec fn irreducible(moves: Seq<Move>) -> bool {
    no_combinable_adjacency(moves) && no_axis_sandwich(moves)
}

/// What a sequence becomes when one candidate is offered to it: the candidate
/// merges into the last move where it can (and both vanish on a full turn),
/// is turned away where it would close a sandwich, and is appended otherwise.
pub open spec fn spec_apply_candidate(moves: Seq<Move>, candidate: Move) -> Seq<Move> {
    if moves.len() > 0 && spec_can_combine(moves.last(), candidate) {
        match spec_combine(moves.last(), candidate) {
            Some(combined) => moves.drop_last().push(combined),
            None => moves.drop_last(),
        }
    } else if spec_parallel_conflict(moves, candidate) {
        moves
    } else {
        moves.push(candidate)
    }
}

/// What is left when `candidates` are offered, one after the other, to a
/// sequence that starts out empty.
pub open spec fn spec_offer_all(candidates: Seq<Move>) -> Seq<Move>
    decreases candidates.len(),
{
    if candidates.len() == 0 {
        Seq::<Move>::empty()
    } else {
        spec_apply_candidate(spec_offer_all(candidates.drop_last()), candidates.last())
    }
}

/// Whether one of the last two moves turns `face`.
pub open spec fn face_in_last_two(moves: Seq<Move>, face: MoveFace) -> bool {
    ||| moves.len() >= 1 && moves[moves.len() - 1].move_face == face
    ||| moves.len() >= 2 && moves[moves.len() - 2].move_face == face
}

/// The first of `Left`, `Up` and `Front` that is the face of neither of the
/// last two moves. A move on it is neither merged nor turned away.
pub open spec fn spec_free_face(moves: Seq<Move>) -> MoveFace {
    if !face_in_last_two(moves, MoveFace::Left) {
        MoveFace::Left
    } else if !face_in_last_two(moves, MoveFace::Up) {
        MoveFace::Up
    } else {
        MoveFace::Front
    }
}

/// The widths that a selector may return.
pub open spec fn selectable<F: Fn(&mut ThreadRng) -> MoveWidth>(
    width_selector: F,
    width: MoveWidth,
) -> bool {
    exists|rng: &mut ThreadRng| call_ensures(width_selector, (rng,), width)
}

/// Whether `second` can be merged into `first`.
pub fn can_combine(first: &Move, second: &Move) -> (r: bool)
    ensures
        r == spec_can_combine(*first, *second),
{
    first.move_face == second.move_face && first.move_width == second.move_width
}

/// Merges two moves on one face and width into one, or into nothing where
/// they cancel. The moves must be combinable.
pub fn combine_moves(first: &Move, second: &Move) -> (combined: Option<Move>)
    requires
        spec_can_combine(*first, *second),
    ensures
        combined == spec_combine(*first, *second),
{
    let combined_type = match (first.move_type, second.move_type) {
        (MoveType::Normal, MoveType::Normal) => Some(MoveType::Double),
        (MoveType::Normal, MoveType::Double) => Some(MoveType::Prime),
        (MoveType::Normal, MoveType::Prime) => None,
        (MoveType::Double, MoveType::Normal) => Some(MoveType::Prime),
        (MoveType::Double, MoveType::Double) => None,
        (MoveType::Double, MoveType::Prime) => Some(MoveType::Normal),
        (MoveType::Prime, MoveType::Normal) => None,
        (MoveType::Prime, MoveType::Double) => Some(MoveType::Normal),
        (MoveType::Prime, MoveType::Prime) => Some(MoveType::Double),
    };
    match combined_type {
        Some(move_type) => Some(
            Move { move_face: first.move_face, move_type, move_width: first.move_width },
        ),
        None => None,
    }
}

/// Whether `new_move` would close a sandwich with the last two of `moves`.
pub fn would_create_parallel_conflict(moves: &[Move], new_move: &Move) -> (r: bool)
    ensures
        r == spec_parallel_conflict(moves@, *new_move),
{
    if moves.len() < 2 {
        return false;
    }
    let last_move = &moves[moves.len() - 1];
    let second_last = &moves[moves.len() - 2];

    if second_last.move_face == new_move.move_face && second_last.move_face.same_axis(
        &last_move.move_face,
    ) {
        return true;
    }
    false
}

/// Offers one candidate to the sequence and settles it at once: merged,
/// turned away, or appended.
pub fn apply_candidate(moves: &mut Vec<Move>, candidate: Move)
    ensures
        final(moves)@ == spec_apply_candidate(old(moves)@, candidate),
{
    let len = moves.len();
    if len > 0 && can_combine(&moves[len - 1], &candidate) {
        let combined = combine_moves(&moves[len - 1], &candidate);
        moves.pop();
        match combined {
            Some(m) => {
                moves.push(m);
            },
            None => {},
        }
        return ;
    }
    if would_create_parallel_conflict(moves.as_slice(), &candidate) {
        return ;
    }
    moves.push(candidate);
}

/// Whether one of the last two moves turns `face`.
fn turned_lately(moves: &[Move], face: MoveFace) -> (r: bool)
    ensures
        r == face_in_last_two(moves@, face),
{
    let len = moves.len();
    (len >= 1 && moves[len - 1].move_face == face) || (len >= 2 && moves[len - 2].move_face
        == face)
}

/// Picks a face on which a move is sure to be appended to `moves`.
pub fn free_face(moves: &[Move]) -> (face: MoveFace)
    ensures
        face == spec_free_face(moves@),
{
    if !turned_lately(moves, MoveFace::Left) {
        MoveFace::Left
    } else if !turned_lately(moves, MoveFace::Up) {
        MoveFace::Up
    } else {
        MoveFace::Front
    }
}

/// The number of candidates whose face is drawn at random. Chance alone
/// does not bound the number of candidates that are merged or turned away,
/// so the loop in `generate_validated_scramble` is certain to end only
/// because of this limit: once it is used up, every further candidate is put
/// on a free face, and so is appended at once.
pub const DRAW_LIMIT: u64 = 0xffff_ffff_ffff_ffff;

/// Builds a scramble of exactly `length` moves in which nothing is left to
/// merge and no face is revisited across its own axis.
///
/// Each candidate takes its face and its amount from `rng` and its width
/// from `width_selector`, and is settled by `apply_candidate`: merged into
/// the last move, turned away, or appended. This goes on until the sequence
/// is full. After `DRAW_LIMIT` candidates the face is no longer drawn but
/// chosen by `free_face`.
pub fn generate_validated_scramble<F: Fn(&mut ThreadRng) -> MoveWidth>(
    rng: &mut ThreadRng,
    length: usize,
    width_selector: F,
) -> (moves: Vec<Move>)
    requires
        forall|g: &mut ThreadRng| call_requires(width_selector, (g,)),
    ensures
        moves@.len() == length,
        no_combinable_adjacency(moves@),
        no_axis_sandwich(moves@),
        forall|i: int|
            0 <= i < moves@.len() ==> selectable(width_selector, (#[trigger] moves@[i]).move_width),
{
    let mut scramble_moves: Vec<Move> = Vec::new();
    let mut draws: u64 = 0;

    while scramble_moves.len() < length
        invariant
            scramble_moves@.len() <= length,
            draws <= DRAW_LIMIT,
            irreducible(scramble_moves@),
            forall|g: &mut ThreadRng| call_requires(width_selector, (g,)),
            forall|i: int|
                0 <= i < scramble_moves@.len() ==> selectable(
                    width_selector,
                    (#[trigger] scramble_moves@[i]).move_width,
                ),
        decreases DRAW_LIMIT - draws, length - scramble_moves@.len(),
    {
        let move_face = if draws < DRAW_LIMIT {
            draws = draws + 1;
            MoveFace::sample(rng)
        } else {
            free_face(scramble_moves.as_slice())
        };
        let move_type = MoveType::sample(rng);
        let move_width = width_selector(rng);

        let new_move = Move { move_face, move_type, move_width };
        let ghost before = scramble_moves@;
        proof {
            lemma_apply_candidate_keeps_irreducible(before, new_move);
            lemma_apply_candidate_widths(
                before,
                new_move,
                |w: MoveWidth| selectable(width_selector, w),
            );
            if move_face == spec_free_face(before) {
                lemma_free_face_is_appended(before, new_move);
            }
        }
        apply_candidate(&mut scramble_moves, new_move);
    }

    scramble_moves
}

/// The nine sums of two amounts: a quarter turn and its inverse cancel, as
/// do two half turns; every other pair leaves one move on the first move's
/// face and width.
pub proof fn lemma_combination_table(first: Move, second: Move)
    requires
        spec_can_combine(first, second),
    ensures
        spec_combine(first, second) == (match (first.move_type, second.move_type) {
            (MoveType::Normal, MoveType::Normal) => Some(with_type(first, MoveType::Double)),
            (MoveType::Normal, MoveType::Double) => Some(with_type(first, MoveType::Prime)),
            (MoveType::Double, MoveType::Normal) => Some(with_type(first, MoveType::Prime)),
            (MoveType::Normal, MoveType::Prime) => None,
            (MoveType::Prime, MoveType::Normal) => None,
            (MoveType::Double, MoveType::Double) => None,
            (MoveType::Double, MoveType::Prime) => Some(with_type(first, MoveType::Normal)),
            (MoveType::Prime, MoveType::Double) => Some(with_type(first, MoveType::Normal)),
            (MoveType::Prime, MoveType::Prime) => Some(with_type(first, MoveType::Double)),
        }),
{
}

/// Merging does not depend on the order of the two moves.
pub proof fn lemma_combine_commutes(first: Move, second: Move)
    requires
        spec_can_combine(first, second),
    ensures
        spec_combine(first, second) == spec_combine(second, first),
{
}

/// Offering a candidate keeps a sequence irreducible, and changes its length
/// by one at most.
pub proof fn lemma_apply_candidate_keeps_irreducible(moves: Seq<Move>, candidate: Move)
    requires
        irreducible(moves),
    ensures
        irreducible(spec_apply_candidate(moves, candidate)),
        moves.len() - 1 <= spec_apply_candidate(moves, candidate).len() <= moves.len() + 1,
{
    let after = spec_apply_candidate(moves, candidate);
    assert forall|i: int| 0 <= i && i + 1 < after.len() implies !#[trigger] combinable_at(
        after,
        i,
    ) by {
        if i + 1 < moves.len() {
            assert(!combinable_at(moves, i));
        }
    }
    assert forall|i: int| 0 <= i && i + 2 < after.len() implies !#[trigger] sandwich_at(
        after,
        i,
    ) by {
        if i + 2 < moves.len() {
            assert(!sandwich_at(moves, i));
        }
    }
}

/// Offering a candidate brings in no width but the candidate's own.
pub proof fn lemma_apply_candidate_widths(
    moves: Seq<Move>,
    candidate: Move,
    allowed: spec_fn(MoveWidth) -> bool,
)
    requires
        forall|i: int| 0 <= i < moves.len() ==> allowed((#[trigger] moves[i]).move_width),
        allowed(candidate.move_width),
    ensures
        forall|i: int|
            0 <= i < spec_apply_candidate(moves, candidate).len() ==> allowed(
                (#[trigger] spec_apply_candidate(moves, candidate)[i]).move_width,
            ),
{
    let after = spec_apply_candidate(moves, candidate);
    assert forall|i: int| 0 <= i < after.len() implies allowed((#[trigger] after[i]).move_width) by {
        if i < moves.len() {
            assert(allowed(moves[i].move_width));
        }
    }
}

/// A candidate is appended as it is exactly when the sequence is still
/// irreducible with the candidate at its end.
pub proof fn lemma_appended_iff_irreducible(moves: Seq<Move>, candidate: Move)
    requires
        irreducible(moves),
    ensures
        spec_apply_candidate(moves, candidate) == moves.push(candidate) <==> irreducible(
            moves.push(candidate),
        ),
{
    let longer = moves.push(candidate);
    let after = spec_apply_candidate(moves, candidate);
    if after == longer {
        lemma_apply_candidate_keeps_irreducible(moves, candidate);
    }
    if irreducible(longer) {
        if moves.len() >= 1 {
            assert(!combinable_at(longer, moves.len() - 1));
        }
        if moves.len() >= 2 {
            assert(!sandwich_at(longer, moves.len() - 2));
        }
        assert(after == longer);
    }
}

/// An irreducible sequence stays irreducible without its last move.
pub proof fn lemma_drop_last_keeps_irreducible(moves: Seq<Move>)
    requires
        irreducible(moves),
        moves.len() > 0,
    ensures
        irreducible(moves.drop_last()),
{
    let shorter = moves.drop_last();
    assert forall|i: int| 0 <= i && i + 1 < shorter.len() implies !#[trigger] combinable_at(
        shorter,
        i,
    ) by {
        assert(!combinable_at(moves, i));
    }
    assert forall|i: int| 0 <= i && i + 2 < shorter.len() implies !#[trigger] sandwich_at(
        shorter,
        i,
    ) by {
        assert(!sandwich_at(moves, i));
    }
}

/// Whatever candidates are offered, what is left is irreducible.
pub proof fn lemma_offer_all_is_irreducible(candidates: Seq<Move>)
    ensures
        irreducible(spec_offer_all(candidates)),
    decreases candidates.len(),
{
    if candidates.len() > 0 {
        lemma_offer_all_is_irreducible(candidates.drop_last());
        lemma_apply_candidate_keeps_irreducible(
            spec_offer_all(candidates.drop_last()),
            candidates.last(),
        );
    }
}

/// Every irreducible sequence can come out: offered move by move, it is
/// left as it is.
pub proof fn lemma_offer_all_keeps_irreducible(moves: Seq<Move>)
    requires
        irreducible(moves),
    ensures
        spec_offer_all(moves) == moves,
    decreases moves.len(),
{
    if moves.len() > 0 {
        lemma_drop_last_keeps_irreducible(moves);
        lemma_offer_all_keeps_irreducible(moves.drop_last());
        assert(moves.drop_last().push(moves.last()) =~= moves);
        lemma_appended_iff_irreducible(moves.drop_last(), moves.last());
    } else {
        assert(moves =~= Seq::<Move>::empty());
    }
}

/// A candidate on the free face is appended as it is.
pub proof fn lemma_free_face_is_appended(moves: Seq<Move>, candidate: Move)
    requires
        candidate.move_face == spec_free_face(moves),
    ensures
        spec_apply_candidate(moves, candidate) == moves.push(candidate),
{
}

} // verus!
