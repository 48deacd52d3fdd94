use crate::random::random_below;
use rand::rngs::ThreadRng;
use vstd::prelude::*;

verus! {

/// One of the six faces of the puzzle; two faces bound each spatial axis.
#[derive(Debug, PartialEq, Eq, Clone, Copy, Structural)]
pub enum MoveFace {
    Left,
    Right,
    Up,
    Down,
    Front,
    Back,
}

/// How far a move turns its face: a half turn, an inverse quarter turn, or a quarter turn.
#[derive(Debug, PartialEq, Eq, Clone, Copy, Structural)]
pub enum MoveType {
    Double,
    Prime,
    Normal,
}

/// How many outer layers a move engages.
#[derive(Debug, PartialEq, Eq, Clone, Copy, Structural)]
pub enum MoveWidth {
    Single,
    Wide,
    ThreeWide,
}

/// A single move: which face turns, by how much, and how many layers go with it.
#[derive(Debug, PartialEq, Eq, Clone, Copy, Structural)]
pub struct Move {
    pub move_face: MoveFace,
    pub move_type: MoveType,
    pub move_width: MoveWidth,
}

/// The face at the other end of the axis of `face`.
pub open spec fn opposite_face(face: MoveFace) -> MoveFace {
    match face {
        MoveFace::Left => MoveFace::Right,
        MoveFace::Right => MoveFace::Left,
        MoveFace::Up => MoveFace::Down,
        MoveFace::Down => MoveFace::Up,
        MoveFace::Front => MoveFace::Back,
        MoveFace::Back => MoveFace::Front,
    }
}

/// Two faces share an axis when each is the opposite of the other.
pub open spec fn spec_same_axis(a: MoveFace, b: MoveFace) -> bool {
    b == opposite_face(a)
}

/// The face that a roll of a six-sided die stands for.
pub open spec fn face_of_roll(roll: u32) -> MoveFace {
    if roll == 0 {
        MoveFace::Left
    } else if roll == 1 {
        MoveFace::Right
    } else if roll == 2 {
        MoveFace::Up
    } else if roll == 3 {
        MoveFace::Down
    } else if roll == 4 {
        MoveFace::Front
    } else {
        MoveFace::Back
    }
}

/// The amount that a roll of a three-sided die stands for.
pub open spec fn type_of_roll(roll: u32) -> MoveType {
    if roll == 0 {
        MoveType::Double
    } else if roll == 1 {
        MoveType::Normal
    } else {
        MoveType::Prime
    }
}

/// The width that a roll of a ten-sided die stands for when no puzzle is
/// named: eight rolls in ten give a single layer, the other two a wide move.
pub open spec fn width_of_roll(roll: u32) -> MoveWidth {
    if roll <= 7 {
        MoveWidth::Single
    } else {
        MoveWidth::Wide
    }
}

/// The number of quarter turns that an amount stands for.
pub open spec fn quarter_turns(move_type: MoveType) -> int {
    match move_type {
        MoveType::Normal => 1,
        MoveType::Double => 2,
        MoveType::Prime => 3,
    }
}

/// The letter that names a face.
pub open spec fn face_letter(face: MoveFace) -> char {
    match face {
        MoveFace::Left => 'L',
        MoveFace::Right => 'R',
        MoveFace::Up => 'U',
        MoveFace::Down => 'D',
        MoveFace::Front => 'F',
        MoveFace::Back => 'B',
    }
}

/// What is written behind the face for an amount.
pub open spec fn type_suffix(move_type: MoveType) -> Seq<char> {
    match move_type {
        MoveType::Double => seq!['2'],
        MoveType::Prime => seq!['\''],
        MoveType::Normal => Seq::<char>::empty(),
    }
}

/// What a width is written as on its own: only a wide move has a mark.
pub open spec fn width_mark(move_width: MoveWidth) -> Seq<char> {
    match move_width {
        MoveWidth::Single => Seq::<char>::empty(),
        MoveWidth::Wide => seq!['w'],
        MoveWidth::ThreeWide => Seq::<char>::empty(),
    }
}

/// The token of a move: the face letter, with `w` behind it for a wide move
/// or `3` before it for a three-layer move, and the amount's suffix last.
pub open spec fn move_token(m: Move) -> Seq<char> {
    match m.move_width {
        MoveWidth::Single => seq![face_letter(m.move_face)] + type_suffix(m.move_type),
        MoveWidth::Wide => seq![face_letter(m.move_face), 'w'] + type_suffix(m.move_type),
        MoveWidth::ThreeWide => seq!['3', face_letter(m.move_face)] + type_suffix(m.move_type),
    }
}

impl MoveFace {
    /// Whether `self` and `other` are the two faces of one axis.
    pub fn same_axis(&self, other: &MoveFace) -> (r: bool)
        ensures
            r == spec_same_axis(*self, *other),
    {
        match (*self, *other) {
            (MoveFace::Right, MoveFace::Left) => true,
            (MoveFace::Left, MoveFace::Right) => true,
            (MoveFace::Up, MoveFace::Down) => true,
            (MoveFace::Down, MoveFace::Up) => true,
            (MoveFace::Front, MoveFace::Back) => true,
            (MoveFace::Back, MoveFace::Front) => true,
            _ => false,
        }
    }

    /// The face for a die roll; rolls of five and above all give `Back`.
    pub fn from_roll(roll: u32) -> (face: MoveFace)
        ensures
            face == face_of_roll(roll),
    {
        if roll == 0 {
            MoveFace::Left
        } else if roll == 1 {
            MoveFace::Right
        } else if roll == 2 {
            MoveFace::Up
        } else if roll == 3 {
            MoveFace::Down
        } else if roll == 4 {
            MoveFace::Front
        } else {
            MoveFace::Back
        }
    }

    /// Draws a face with one roll of a six-sided die.
    pub fn sample(rng: &mut ThreadRng) -> (face: MoveFace)
        ensures
            exists|roll: u32| roll < 6 && face == face_of_roll(roll),
    {
        MoveFace::from_roll(random_below(rng, 6))
    }

    /// The face as its one-letter name.
    pub fn to_string(&self) -> (s: String)
        ensures
            s@ == seq![face_letter(*self)],
    {
        proof {
            reveal_strlit("L");
            reveal_strlit("R");
            reveal_strlit("U");
            reveal_strlit("D");
            reveal_strlit("F");
            reveal_strlit("B");
        }
        let letter = match self {
            MoveFace::Left => "L",
            MoveFace::Right => "R",
            MoveFace::Up => "U",
            MoveFace::Down => "D",
            MoveFace::Front => "F",
            MoveFace::Back => "B",
        };
        assert(letter@ =~= seq![face_letter(*self)]);
        String::from_str(letter)
    }
}

impl MoveType {
    /// The amount for a die roll; rolls of two and above all give `Prime`.
    pub fn from_roll(roll: u32) -> (move_type: MoveType)
        ensures
            move_type == type_of_roll(roll),
    {
        if roll == 0 {
            MoveType::Double
        } else if roll == 1 {
            MoveType::Normal
        } else {
            MoveType::Prime
        }
    }

    /// Draws an amount with one roll of a three-sided die.
    pub fn sample(rng: &mut ThreadRng) -> (move_type: MoveType)
        ensures
            exists|roll: u32| roll < 3 && move_type == type_of_roll(roll),
    {
        MoveType::from_roll(random_below(rng, 3))
    }

    /// The amount as its suffix: `2`, `'`, or nothing for a quarter turn.
    pub fn to_string(&self) -> (s: String)
        ensures
            s@ == type_suffix(*self),
    {
        proof {
            reveal_strlit("2");
            reveal_strlit("'");
            reveal_strlit("");
        }
        let suffix = match self {
            MoveType::Double => "2",
            MoveType::Prime => "'",
            MoveType::Normal => "",
        };
        assert(suffix@ =~= type_suffix(*self));
        String::from_str(suffix)
    }
}

impl MoveWidth {
    /// The width for a die roll when no puzzle is named.
    pub fn from_roll(roll: u32) -> (move_width: MoveWidth)
        ensures
            move_width == width_of_roll(roll),
    {
        if roll <= 7 {
            MoveWidth::Single
        } else {
            MoveWidth::Wide
        }
    }

    /// Draws a width with one roll of a ten-sided die; the result is never
    /// a three-layer move.
    pub fn sample(rng: &mut ThreadRng) -> (move_width: MoveWidth)
        ensures
            exists|roll: u32| roll < 10 && move_width == width_of_roll(roll),
            move_width != MoveWidth::ThreeWide,
    {
        MoveWidth::from_roll(random_below(rng, 10))
    }

    /// The width as its mark: `w` for a wide move, nothing otherwise.
    pub fn to_string(&self) -> (s: String)
        ensures
            s@ == width_mark(*self),
    {
        proof {
            reveal_strlit("w");
            reveal_strlit("");
        }
        let mark = match self {
            MoveWidth::Single => "",
            MoveWidth::Wide => "w",
            MoveWidth::ThreeWide => "",
        };
        assert(mark@ =~= width_mark(*self));
        String::from_str(mark)
    }
}

impl Move {
    /// The move as its token, such as `R'`, `Rw2` or `3R'`.
    pub fn to_string(&self) -> (s: String)
        ensures
            s@ == move_token(*self),
    {
        proof {
            reveal_strlit("3");
            reveal_strlit("w");
        }
        let face = self.move_face.to_string();
        let suffix = self.move_type.to_string();
        let mut token = String::new();
        match self.move_width {
            MoveWidth::Single => {
                token.append(face.as_str());
            },
            MoveWidth::Wide => {
                token.append(face.as_str());
                token.append("w");
            },
            MoveWidth::ThreeWide => {
                token.append("3");
                token.append(face.as_str());
            },
        }
        token.append(suffix.as_str());
        assert(token@ =~= move_token(*self));
        token
    }
}

/// Two faces share an axis exactly when they form one of the three pairs of
/// opposite faces, in either order. The relation is symmetric, and no face
/// shares an axis with itself.
pub proof fn lemma_same_axis_pairs(a: MoveFace, b: MoveFace)
    ensures
        spec_same_axis(a, b) <==> {
            ||| (a == MoveFace::Left && b == MoveFace::Right)
            ||| (a == MoveFace::Right && b == MoveFace::Left)
            ||| (a == MoveFace::Up && b == MoveFace::Down)
            ||| (a == MoveFace::Down && b == MoveFace::Up)
            ||| (a == MoveFace::Front && b == MoveFace::Back)
            ||| (a == MoveFace::Back && b == MoveFace::Front)
        },
        spec_same_axis(a, b) == spec_same_axis(b, a),
        !spec_same_axis(a, a),
{
}

/// The six rolls of a die and the six faces stand in one-to-one
/// correspondence: every face has a roll below six, and no two such rolls
/// give the same face.
pub proof fn lemma_face_rolls_cover(face: MoveFace, r1: u32, r2: u32)
    ensures
        exists|roll: u32| roll < 6 && face_of_roll(roll) == face,
        r1 < 6 && r2 < 6 && face_of_roll(r1) == face_of_roll(r2) ==> r1 == r2,
{
    let roll: u32 = match face {
        MoveFace::Left => 0,
        MoveFace::Right => 1,
        MoveFace::Up => 2,
        MoveFace::Down => 3,
        MoveFace::Front => 4,
        MoveFace::Back => 5,
    };
    assert(roll < 6 && face_of_roll(roll) == face);
}

/// The three rolls of a die and the three amounts stand in one-to-one
/// correspondence.
pub proof fn lemma_type_rolls_cover(move_type: MoveType, r1: u32, r2: u32)
    ensures
        exists|roll: u32| roll < 3 && type_of_roll(roll) == move_type,
        r1 < 3 && r2 < 3 && type_of_roll(r1) == type_of_roll(r2) ==> r1 == r2,
{
    let roll: u32 = match move_type {
        MoveType::Double => 0,
        MoveType::Normal => 1,
        MoveType::Prime => 2,
    };
    assert(roll < 3 && type_of_roll(roll) == move_type);
}

} // verus!
