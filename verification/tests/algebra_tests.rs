use scramble_gen::generators::validator::{
    apply_candidate, can_combine, combine_moves, free_face, would_create_parallel_conflict,
};
use scramble_gen::{Move, MoveFace, MoveType, MoveWidth};

const FACES: [MoveFace; 6] = [
    MoveFace::Left,
    MoveFace::Right,
    MoveFace::Up,
    MoveFace::Down,
    MoveFace::Front,
    MoveFace::Back,
];

const TYPES: [MoveType; 3] = [MoveType::Normal, MoveType::Double, MoveType::Prime];

const WIDTHS: [MoveWidth; 3] = [MoveWidth::Single, MoveWidth::Wide, MoveWidth::ThreeWide];

fn mv(move_face: MoveFace, move_type: MoveType, move_width: MoveWidth) -> Move {
    Move { move_face, move_type, move_width }
}

fn single(move_face: MoveFace, move_type: MoveType) -> Move {
    mv(move_face, move_type, MoveWidth::Single)
}

fn sum_on_right_wide(first: MoveType, second: MoveType) -> Option<Move> {
    combine_moves(
        &mv(MoveFace::Right, first, MoveWidth::Wide),
        &mv(MoveFace::Right, second, MoveWidth::Wide),
    )
}

#[test]
fn combine_normal_normal_gives_double() {
    let expected = mv(MoveFace::Right, MoveType::Double, MoveWidth::Wide);
    assert_eq!(sum_on_right_wide(MoveType::Normal, MoveType::Normal), Some(expected));
}

#[test]
fn combine_normal_double_gives_prime() {
    let expected = mv(MoveFace::Right, MoveType::Prime, MoveWidth::Wide);
    assert_eq!(sum_on_right_wide(MoveType::Normal, MoveType::Double), Some(expected));
}

#[test]
fn combine_double_normal_gives_prime() {
    let expected = mv(MoveFace::Right, MoveType::Prime, MoveWidth::Wide);
    assert_eq!(sum_on_right_wide(MoveType::Double, MoveType::Normal), Some(expected));
}

#[test]
fn combine_normal_prime_cancels() {
    assert_eq!(sum_on_right_wide(MoveType::Normal, MoveType::Prime), None);
}

#[test]
fn combine_prime_normal_cancels() {
    assert_eq!(sum_on_right_wide(MoveType::Prime, MoveType::Normal), None);
}

#[test]
fn combine_double_double_cancels() {
    assert_eq!(sum_on_right_wide(MoveType::Double, MoveType::Double), None);
}

#[test]
fn combine_double_prime_gives_normal() {
    let expected = mv(MoveFace::Right, MoveType::Normal, MoveWidth::Wide);
    assert_eq!(sum_on_right_wide(MoveType::Double, MoveType::Prime), Some(expected));
}

#[test]
fn combine_prime_double_gives_normal() {
    let expected = mv(MoveFace::Right, MoveType::Normal, MoveWidth::Wide);
    assert_eq!(sum_on_right_wide(MoveType::Prime, MoveType::Double), Some(expected));
}

#[test]
fn combine_prime_prime_gives_double() {
    let expected = mv(MoveFace::Right, MoveType::Double, MoveWidth::Wide);
    assert_eq!(sum_on_right_wide(MoveType::Prime, MoveType::Prime), Some(expected));
}

#[test]
fn combine_keeps_face_and_width_and_commutes() {
    for face in FACES {
        for width in WIDTHS {
            for first in TYPES {
                for second in TYPES {
                    let a = mv(face, first, width);
                    let b = mv(face, second, width);
                    let ab = combine_moves(&a, &b);
                    assert_eq!(ab, combine_moves(&b, &a));
                    if let Some(m) = ab {
                        assert_eq!(m.move_face, face);
                        assert_eq!(m.move_width, width);
                    }
                }
            }
        }
    }
}

#[test]
fn can_combine_needs_same_face_and_width() {
    for f1 in FACES {
        for f2 in FACES {
            for w1 in WIDTHS {
                for w2 in WIDTHS {
                    let a = mv(f1, MoveType::Normal, w1);
                    let b = mv(f2, MoveType::Prime, w2);
                    assert_eq!(can_combine(&a, &b), f1 == f2 && w1 == w2);
                }
            }
        }
    }
}

#[test]
fn same_axis_holds_of_the_three_opposite_pairs_only() {
    let mut count = 0;
    for a in FACES {
        for b in FACES {
            let expected = matches!(
                (a, b),
                (MoveFace::Left, MoveFace::Right)
                    | (MoveFace::Right, MoveFace::Left)
                    | (MoveFace::Up, MoveFace::Down)
                    | (MoveFace::Down, MoveFace::Up)
                    | (MoveFace::Front, MoveFace::Back)
                    | (MoveFace::Back, MoveFace::Front)
            );
            assert_eq!(a.same_axis(&b), expected);
            assert_eq!(a.same_axis(&b), b.same_axis(&a));
            if a.same_axis(&b) {
                count += 1;
            }
        }
        assert!(!a.same_axis(&a));
    }
    assert_eq!(count, 6);
}

#[test]
fn face_from_roll_table() {
    assert_eq!(MoveFace::from_roll(0), MoveFace::Left);
    assert_eq!(MoveFace::from_roll(1), MoveFace::Right);
    assert_eq!(MoveFace::from_roll(2), MoveFace::Up);
    assert_eq!(MoveFace::from_roll(3), MoveFace::Down);
    assert_eq!(MoveFace::from_roll(4), MoveFace::Front);
    assert_eq!(MoveFace::from_roll(5), MoveFace::Back);
    assert_eq!(MoveFace::from_roll(6), MoveFace::Back);
    assert_eq!(MoveFace::from_roll(u32::MAX), MoveFace::Back);
}

#[test]
fn type_from_roll_table() {
    assert_eq!(MoveType::from_roll(0), MoveType::Double);
    assert_eq!(MoveType::from_roll(1), MoveType::Normal);
    assert_eq!(MoveType::from_roll(2), MoveType::Prime);
    assert_eq!(MoveType::from_roll(3), MoveType::Prime);
}

#[test]
fn width_from_roll_table() {
    for roll in 0..=7 {
        assert_eq!(MoveWidth::from_roll(roll), MoveWidth::Single);
    }
    assert_eq!(MoveWidth::from_roll(8), MoveWidth::Wide);
    assert_eq!(MoveWidth::from_roll(9), MoveWidth::Wide);
}

#[test]
fn width_mark_is_w_for_wide_only() {
    assert_eq!(MoveWidth::Single.to_string(), "");
    assert_eq!(MoveWidth::Wide.to_string(), "w");
    assert_eq!(MoveWidth::ThreeWide.to_string(), "");
}

#[test]
fn move_token_for_every_width() {
    assert_eq!(single(MoveFace::Up, MoveType::Normal).to_string(), "U");
    assert_eq!(mv(MoveFace::Down, MoveType::Prime, MoveWidth::Wide).to_string(), "Dw'");
    assert_eq!(mv(MoveFace::Back, MoveType::Double, MoveWidth::ThreeWide).to_string(), "3B2");
    assert_eq!(mv(MoveFace::Front, MoveType::Normal, MoveWidth::ThreeWide).to_string(), "3F");
    assert_eq!(mv(MoveFace::Left, MoveType::Normal, MoveWidth::Wide).to_string(), "Lw");
}

#[test]
fn parallel_conflict_needs_two_moves() {
    let r = single(MoveFace::Right, MoveType::Normal);
    let l = single(MoveFace::Left, MoveType::Normal);
    assert!(!would_create_parallel_conflict(&[], &r));
    assert!(!would_create_parallel_conflict(&[l], &r));
}

#[test]
fn parallel_conflict_on_same_axis_revisit() {
    let r = single(MoveFace::Right, MoveType::Normal);
    let l = single(MoveFace::Left, MoveType::Prime);
    let u = single(MoveFace::Up, MoveType::Normal);
    let rw = mv(MoveFace::Right, MoveType::Double, MoveWidth::Wide);
    assert!(would_create_parallel_conflict(&[r, l], &r));
    assert!(would_create_parallel_conflict(&[r, l], &rw));
    assert!(would_create_parallel_conflict(&[u, r, l], &r));
    assert!(!would_create_parallel_conflict(&[r, u], &r));
    assert!(!would_create_parallel_conflict(&[r, l], &u));
    assert!(!would_create_parallel_conflict(&[r, l], &l));
    assert!(!would_create_parallel_conflict(&[r, l, u], &r));
}

#[test]
fn apply_candidate_appends_to_empty() {
    let r = single(MoveFace::Right, MoveType::Normal);
    let mut moves = Vec::new();
    apply_candidate(&mut moves, r);
    assert_eq!(moves, vec![r]);
}

#[test]
fn apply_candidate_merges_into_last() {
    let u = single(MoveFace::Up, MoveType::Prime);
    let r = single(MoveFace::Right, MoveType::Normal);
    let mut moves = vec![u, r];
    apply_candidate(&mut moves, single(MoveFace::Right, MoveType::Double));
    assert_eq!(moves, vec![u, single(MoveFace::Right, MoveType::Prime)]);
}

#[test]
fn apply_candidate_cancels_last() {
    let u = single(MoveFace::Up, MoveType::Prime);
    let r = single(MoveFace::Right, MoveType::Normal);
    let mut moves = vec![u, r];
    apply_candidate(&mut moves, single(MoveFace::Right, MoveType::Prime));
    assert_eq!(moves, vec![u]);
}

#[test]
fn apply_candidate_turns_sandwich_away() {
    let r = single(MoveFace::Right, MoveType::Normal);
    let l = single(MoveFace::Left, MoveType::Normal);
    let mut moves = vec![r, l];
    apply_candidate(&mut moves, mv(MoveFace::Right, MoveType::Prime, MoveWidth::Wide));
    assert_eq!(moves, vec![r, l]);
}

#[test]
fn apply_candidate_merges_before_checking_sandwich() {
    let r = single(MoveFace::Right, MoveType::Normal);
    let l = single(MoveFace::Left, MoveType::Normal);
    let mut moves = vec![l, r, l];
    apply_candidate(&mut moves, single(MoveFace::Left, MoveType::Normal));
    assert_eq!(moves, vec![l, r, single(MoveFace::Left, MoveType::Double)]);
}

#[test]
fn apply_candidate_appends_across_other_axis() {
    let r = single(MoveFace::Right, MoveType::Normal);
    let u = single(MoveFace::Up, MoveType::Normal);
    let mut moves = vec![r, u];
    apply_candidate(&mut moves, r);
    assert_eq!(moves, vec![r, u, r]);
}

#[test]
fn apply_candidate_appends_same_face_of_other_width() {
    let r = single(MoveFace::Right, MoveType::Normal);
    let rw = mv(MoveFace::Right, MoveType::Normal, MoveWidth::Wide);
    let mut moves = vec![r];
    apply_candidate(&mut moves, rw);
    assert_eq!(moves, vec![r, rw]);
}

#[test]
fn free_face_is_left_up_or_front() {
    let l = single(MoveFace::Left, MoveType::Normal);
    let u = single(MoveFace::Up, MoveType::Normal);
    let r = single(MoveFace::Right, MoveType::Normal);
    assert_eq!(free_face(&[]), MoveFace::Left);
    assert_eq!(free_face(&[r]), MoveFace::Left);
    assert_eq!(free_face(&[l]), MoveFace::Up);
    assert_eq!(free_face(&[l, r]), MoveFace::Up);
    assert_eq!(free_face(&[l, u]), MoveFace::Front);
    assert_eq!(free_face(&[u, l]), MoveFace::Front);
    assert_eq!(free_face(&[l, u, r]), MoveFace::Left);
}

#[test]
fn move_on_free_face_is_always_appended() {
    for f1 in FACES {
        for f2 in FACES {
            for width in WIDTHS {
                let before = vec![single(f1, MoveType::Normal), mv(f2, MoveType::Prime, width)];
                let face = free_face(&before);
                let candidate = mv(face, MoveType::Double, width);
                let mut moves = before.clone();
                apply_candidate(&mut moves, candidate);
                assert_eq!(moves.len(), 3);
                assert_eq!(moves[2], candidate);
                assert_eq!(&moves[..2], &before[..]);
            }
        }
    }
}

#[test]
fn offering_an_irreducible_sequence_leaves_it_as_it_is() {
    let sequence = vec![
        single(MoveFace::Right, MoveType::Normal),
        single(MoveFace::Up, MoveType::Prime),
        single(MoveFace::Right, MoveType::Double),
        mv(MoveFace::Right, MoveType::Normal, MoveWidth::Wide),
        single(MoveFace::Left, MoveType::Normal),
        single(MoveFace::Front, MoveType::Double),
        mv(MoveFace::Back, MoveType::Prime, MoveWidth::ThreeWide),
        single(MoveFace::Down, MoveType::Normal),
    ];
    let mut moves = Vec::new();
    for candidate in &sequence {
        apply_candidate(&mut moves, *candidate);
    }
    assert_eq!(moves, sequence);
}

#[test]
fn offering_candidates_merges_cancels_and_turns_away() {
    let candidates = [
        single(MoveFace::Right, MoveType::Normal),
        single(MoveFace::Right, MoveType::Normal),
        single(MoveFace::Left, MoveType::Prime),
        single(MoveFace::Right, MoveType::Prime),
        single(MoveFace::Left, MoveType::Normal),
        single(MoveFace::Up, MoveType::Double),
        single(MoveFace::Up, MoveType::Double),
        single(MoveFace::Right, MoveType::Double),
    ];
    let mut moves = Vec::new();
    for candidate in candidates {
        apply_candidate(&mut moves, candidate);
    }
    assert_eq!(moves, Vec::<Move>::new());
}
