//! Rotations of the whole cube about the axis that runs through both hands.
//!
//! Both hands hold the cube by its `R` and `L` faces, so turning a wrist
//! carries the other four faces round that axis, a quarter turn at a time.
//! The four rotations form a cyclic group; it acts on the faces by relabelling
//! them.

use vstd::prelude::*;
use crate::absolute_moves::Side;

verus! {

/// The face found where `side` was after one quarter turn of the cube.
///
/// `R` and `L` lie on the axis and stay. The others follow the cycle
/// `U -> F -> D -> B -> U`.
pub open spec fn quarter_turn(side: Side) -> Side {
    match side {
        Side::R => Side::R,
        Side::L => Side::L,
        Side::U => Side::F,
        Side::F => Side::D,
        Side::D => Side::B,
        Side::B => Side::U,
    }
}

/// A rotation of the whole cube by a number of quarter turns.
#[derive(Clone, Copy, PartialEq, Eq, Debug, Structural)]
pub enum FullCubeRotation {
    /// No rotation.
    Ident,
    /// One quarter turn.
    X,
    /// A half turn.
    X2,
    /// One quarter turn the other way.
    Xi,
}

impl FullCubeRotation {
    /// The number of quarter turns that make up this rotation, from 0 to 3.
    pub open spec fn quarter_turns(self) -> int {
        match self {
            FullCubeRotation::Ident => 0,
            FullCubeRotation::X => 1,
            FullCubeRotation::X2 => 2,
            FullCubeRotation::Xi => 3,
        }
    }

    /// The rotation made of `n` quarter turns. Four of them cancel.
    pub open spec fn of_quarter_turns(n: int) -> FullCubeRotation {
        let k = n % 4;
        if k == 0 {
            FullCubeRotation::Ident
        } else if k == 1 {
            FullCubeRotation::X
        } else if k == 2 {
            FullCubeRotation::X2
        } else {
            FullCubeRotation::Xi
        }
    }

    /// The action on faces: one `quarter_turn` for each quarter turn of the
    /// rotation.
    pub open spec fn spec_apply_to_side(self, side: Side) -> Side {
        match self {
            FullCubeRotation::Ident => side,
            FullCubeRotation::X => quarter_turn(side),
            FullCubeRotation::X2 => quarter_turn(quarter_turn(side)),
            FullCubeRotation::Xi => quarter_turn(quarter_turn(quarter_turn(side))),
        }
    }

    /// The rotation that undoes this one.
    pub open spec fn spec_inverse(self) -> FullCubeRotation {
        Self::of_quarter_turns(4 - self.quarter_turns())
    }

    /// This rotation carried out after `first`.
    pub open spec fn spec_compose(self, first: FullCubeRotation) -> FullCubeRotation {
        Self::of_quarter_turns(self.quarter_turns() + first.quarter_turns())
    }

    /// Relabels a face: the result is the face found where `side` was once
    /// the cube has been rotated.
    #[verifier::when_used_as_spec(spec_apply_to_side)]
    pub fn apply_to_side(self, side: Side) -> (r: Side)
        ensures
            r == self.spec_apply_to_side(side),
    {
        match (self, side) {
            (_, Side::R) => Side::R,
            (_, Side::L) => Side::L,
            (FullCubeRotation::Ident, s) => s,
            (FullCubeRotation::X, Side::U) => Side::F,
            (FullCubeRotation::X, Side::F) => Side::D,
            (FullCubeRotation::X, Side::D) => Side::B,
            (FullCubeRotation::X, Side::B) => Side::U,
            (FullCubeRotation::X2, Side::U) => Side::D,
            (FullCubeRotation::X2, Side::F) => Side::B,
            (FullCubeRotation::X2, Side::D) => Side::U,
            (FullCubeRotation::X2, Side::B) => Side::F,
            (FullCubeRotation::Xi, Side::U) => Side::B,
            (FullCubeRotation::Xi, Side::F) => Side::U,
            (FullCubeRotation::Xi, Side::D) => Side::F,
            (FullCubeRotation::Xi, Side::B) => Side::D,
        }
    }

    /// The rotation that undoes this one.
    #[verifier::when_used_as_spec(spec_inverse)]
    pub fn inverse(self) -> (r: FullCubeRotation)
        ensures
            r == self.spec_inverse(),
    {
        match self {
            FullCubeRotation::Ident => FullCubeRotation::Ident,
            FullCubeRotation::X => FullCubeRotation::Xi,
            FullCubeRotation::X2 => FullCubeRotation::X2,
            FullCubeRotation::Xi => FullCubeRotation::X,
        }
    }

    /// This rotation carried out after `first`.
    #[verifier::when_used_as_spec(spec_compose)]
    pub fn compose(self, first: FullCubeRotation) -> (r: FullCubeRotation)
        ensures
            r == self.spec_compose(first),
    {
        match self {
            FullCubeRotation::Ident => first,
            FullCubeRotation::X => match first {
                FullCubeRotation::Ident => FullCubeRotation::X,
                FullCubeRotation::X => FullCubeRotation::X2,
                FullCubeRotation::X2 => FullCubeRotation::Xi,
                FullCubeRotation::Xi => FullCubeRotation::Ident,
            },
            FullCubeRotation::X2 => match first {
                FullCubeRotation::Ident => FullCubeRotation::X2,
                FullCubeRotation::X => FullCubeRotation::Xi,
                FullCubeRotation::X2 => FullCubeRotation::Ident,
                FullCubeRotation::Xi => FullCubeRotation::X,
            },
            FullCubeRotation::Xi => match first {
                FullCubeRotation::Ident => FullCubeRotation::Xi,
                FullCubeRotation::X => FullCubeRotation::Ident,
                FullCubeRotation::X2 => FullCubeRotation::X,
                FullCubeRotation::Xi => FullCubeRotation::X2,
            },
        }
    }
}

/// The identity rotation leaves every face where it is.
pub proof fn lemma_identity_fixes_faces(side: Side)
    ensures
        FullCubeRotation::Ident.apply_to_side(side) == side,
{
}

/// The quarter turn has order four: applied four times it brings every face
/// back.
pub proof fn lemma_quarter_turn_order_four(side: Side)
    ensures
        FullCubeRotation::X.apply_to_side(
            FullCubeRotation::X.apply_to_side(
                FullCubeRotation::X.apply_to_side(FullCubeRotation::X.apply_to_side(side)),
            ),
        ) == side,
{
}

/// Two quarter turns in the same sense, either way round, are the half turn.
pub proof fn lemma_two_quarter_turns_are_half_turn(side: Side)
    ensures
        FullCubeRotation::X.apply_to_side(FullCubeRotation::X.apply_to_side(side))
            == FullCubeRotation::X2.apply_to_side(side),
        FullCubeRotation::Xi.apply_to_side(FullCubeRotation::Xi.apply_to_side(side))
            == FullCubeRotation::X2.apply_to_side(side),
{
}

/// Every rotation is a permutation of the faces, undone by its inverse; the
/// two quarter turns undo each other and the half turn undoes itself.
pub proof fn lemma_inverse_undoes(rot: FullCubeRotation, side: Side)
    ensures
        rot.inverse().apply_to_side(rot.apply_to_side(side)) == side,
        rot.apply_to_side(rot.inverse().apply_to_side(side)) == side,
        rot.inverse().inverse() == rot,
        FullCubeRotation::X.inverse() == FullCubeRotation::Xi,
        FullCubeRotation::X2.inverse() == FullCubeRotation::X2,
{
}

/// Relabelling is a group action: relabelling by a composed rotation is
/// relabelling by its parts in turn.
pub proof fn lemma_compose_acts_in_turn(
    second: FullCubeRotation,
    first: FullCubeRotation,
    side: Side,
)
    ensures
        second.compose(first).apply_to_side(side) == second.apply_to_side(
            first.apply_to_side(side),
        ),
{
}

/// Composition makes the four rotations a commutative group with `Ident` as
/// its neutral element.
pub proof fn lemma_rotations_form_group(
    a: FullCubeRotation,
    b: FullCubeRotation,
    c: FullCubeRotation,
)
    ensures
        a.compose(FullCubeRotation::Ident) == a,
        FullCubeRotation::Ident.compose(a) == a,
        a.compose(a.inverse()) == FullCubeRotation::Ident,
        a.inverse().compose(a) == FullCubeRotation::Ident,
        a.compose(b) == b.compose(a),
        a.compose(b).compose(c) == a.compose(b.compose(c)),
{
}

/// No rotation moves the two faces on the axis. Of the other four, a quarter
/// turn either way leaves none in place, and the half turn swaps each with
/// the face opposite.
pub proof fn lemma_axis_faces_stay(rot: FullCubeRotation, side: Side)
    ensures
        rot.apply_to_side(Side::R) == Side::R,
        rot.apply_to_side(Side::L) == Side::L,
        side != Side::R && side != Side::L ==> {
            &&& FullCubeRotation::X.apply_to_side(side) != side
            &&& FullCubeRotation::Xi.apply_to_side(side) != side
            &&& FullCubeRotation::X2.apply_to_side(side) == side.opposite()
            &&& rot.apply_to_side(side) != Side::R
            &&& rot.apply_to_side(side) != Side::L
        },
{
}

} // verus!
