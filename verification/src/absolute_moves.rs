//! Faces, turn amounts and the absolute moves made of them.

use vstd::prelude::*;

verus! {

/// The six faces, each once.
pub const SIDES: [Side; 6] = [Side::R, Side::L, Side::U, Side::D, Side::F, Side::B];

/// One of the six faces of the cube.
#[derive(Clone, Copy, PartialEq, Eq, Debug, Structural)]
pub enum Side {
    R,
    L,
    U,
    D,
    F,
    B,
}

impl Side {
    /// The face on the other end of the same axis.
    pub open spec fn opposite(self) -> Side {
        match self {
            Side::R => Side::L,
            Side::L => Side::R,
            Side::U => Side::D,
            Side::D => Side::U,
            Side::F => Side::B,
            Side::B => Side::F,
        }
    }
}

/// How far, and in which sense, a face is turned.
#[derive(Clone, Copy, PartialEq, Eq, Debug, Structural)]
pub enum MoveDirection {
    CW,
    CCW,
    Double,
}

impl MoveDirection {
    /// The turn that undoes this one. A half turn undoes itself.
    pub open spec fn inverse(self) -> MoveDirection {
        match self {
            MoveDirection::CW => MoveDirection::CCW,
            MoveDirection::CCW => MoveDirection::CW,
            MoveDirection::Double => MoveDirection::Double,
        }
    }
}

/// A move named by the face that turns and by how it turns.
#[derive(Clone, Copy, PartialEq, Eq, Debug, Structural)]
pub struct AbsMove(pub Side, pub MoveDirection);

/// `SIDES` names every face, and none twice.
pub proof fn lemma_sides_holds_each_face_once(side: Side)
    ensures
        exists|i: int| 0 <= i < 6 && SIDES[i] == side,
        forall|i: int, j: int| 0 <= i < j < 6 ==> SIDES[i] != SIDES[j],
{
    let i: int = match side {
        Side::R => 0,
        Side::L => 1,
        Side::U => 2,
        Side::D => 3,
        Side::F => 4,
        Side::B => 5,
    };
    assert(SIDES[i] == side);
}

} // verus!
