//! Finger tricks, grips and the translation of an algorithm into absolute
//! moves.

use vstd::prelude::*;
use crate::absolute_moves::{AbsMove, MoveDirection, Side};
use crate::rotation::FullCubeRotation;

verus! {

/// A finger that can push or pull a layer.
#[derive(Debug, Copy, Clone, PartialEq, Eq, Structural)]
pub enum Finger {
    Thumb,
    Index,
    Middle,
    Ring,
    Little,
}

impl Finger {
    /// The face that lies under this finger while its hand is in the neutral
    /// grip: the thumb rests on the front, index and middle finger on the
    /// top, ring and little finger on the bottom.
    pub open spec fn face(self) -> Side {
        match self {
            Finger::Thumb => Side::F,
            Finger::Index => Side::U,
            Finger::Middle => Side::U,
            Finger::Ring => Side::D,
            Finger::Little => Side::D,
        }
    }

    /// The sense in which that face turns when this finger of the left hand
    /// pushes.
    pub open spec fn left_push(self) -> MoveDirection {
        match self {
            Finger::Thumb => MoveDirection::CW,
            Finger::Index => MoveDirection::CW,
            Finger::Middle => MoveDirection::CW,
            Finger::Ring => MoveDirection::CCW,
            Finger::Little => MoveDirection::CCW,
        }
    }
}

/// One of the two hands that hold the cube.
#[derive(Debug, Copy, Clone, PartialEq, Eq, Structural)]
pub enum Hand {
    Left,
    Right,
}

/// The way a finger moves its layer.
#[derive(Debug, Copy, Clone, PartialEq, Eq, Structural)]
pub enum Direction {
    Push,
    Pull,
}

/// How far a hand has rotated the cube out of its neutral hold.
///
/// There are four positions, `G0` to `G3`, in this order; `G2` is the
/// neutral one. A hand cannot turn past either end.
#[derive(Debug, Copy, Clone, PartialEq, Eq, PartialOrd, Ord, Structural)]
pub enum Grip {
    G0,
    G1,
    G2,
    G3,
}

/// A request to move one hand's grip up or down by one or two positions.
#[derive(Debug, Copy, Clone, PartialEq, Eq, Structural)]
pub enum VMove {
    Plus1,
    Minus1,
    Plus2,
    Minus2,
}

impl VMove {
    /// The signed number of positions asked for.
    pub open spec fn steps(self) -> int {
        match self {
            VMove::Plus1 => 1,
            VMove::Minus1 => -1,
            VMove::Plus2 => 2,
            VMove::Minus2 => -2,
        }
    }
}

impl Grip {
    /// The position as a number from 0 to 3.
    pub open spec fn spec_level(self) -> u8 {
        match self {
            Grip::G0 => 0,
            Grip::G1 => 1,
            Grip::G2 => 2,
            Grip::G3 => 3,
        }
    }

    /// The grip at position `level`, if there is one: positions below 0 and
    /// above 3 do not exist.
    pub open spec fn at(level: int) -> Option<Grip> {
        if level == 0 {
            Some(Grip::G0)
        } else if level == 1 {
            Some(Grip::G1)
        } else if level == 2 {
            Some(Grip::G2)
        } else if level == 3 {
            Some(Grip::G3)
        } else {
            None
        }
    }

    /// Where a request leads from this grip: to the position that many steps
    /// away, or nowhere if that lies past either end. Nothing wraps round and
    /// nothing stops short at the end.
    pub open spec fn spec_changeby(self, change: VMove) -> Option<Grip> {
        Grip::at(self.level() + change.steps())
    }

    /// The rotation of the cube that this grip stands for: one quarter turn
    /// for each position below the neutral `G2`, and one taken off for each
    /// position above it. So `G2` is no rotation, `G1` a quarter turn, `G0`
    /// a half turn and `G3` a quarter turn the other way.
    pub open spec fn spec_rotation(self) -> FullCubeRotation {
        FullCubeRotation::of_quarter_turns(2 - self.level())
    }

    /// The position as a number from 0 to 3.
    #[verifier::when_used_as_spec(spec_level)]
    pub fn level(self) -> (n: u8)
        ensures
            n == self.spec_level(),
            n <= 3,
    {
        match self {
            Grip::G0 => 0,
            Grip::G1 => 1,
            Grip::G2 => 2,
            Grip::G3 => 3,
        }
    }

    /// The grip at position `level`; `None` if `level` is above 3.
    pub fn from_level(level: u8) -> (grip: Option<Grip>)
        ensures
            grip == Grip::at(level as int),
            grip is Some <==> level <= 3,
            grip matches Some(g) ==> g.level() == level,
    {
        if level == 0 {
            Some(Grip::G0)
        } else if level == 1 {
            Some(Grip::G1)
        } else if level == 2 {
            Some(Grip::G2)
        } else if level == 3 {
            Some(Grip::G3)
        } else {
            None
        }
    }

    /// One position up; `None` at `G3`.
    pub fn increase(self) -> (next: Option<Grip>)
        ensures
            next == Grip::at(self.level() + 1),
    {
        match self {
            Grip::G0 => Some(Grip::G1),
            Grip::G1 => Some(Grip::G2),
            Grip::G2 => Some(Grip::G3),
            Grip::G3 => None,
        }
    }

    /// One position down; `None` at `G0`.
    pub fn decrease(self) -> (next: Option<Grip>)
        ensures
            next == Grip::at(self.level() - 1),
    {
        match self {
            Grip::G0 => None,
            Grip::G1 => Some(Grip::G0),
            Grip::G2 => Some(Grip::G1),
            Grip::G3 => Some(Grip::G2),
        }
    }

    /// Two positions up, one after the other; `None` unless both exist.
    pub fn inc2(self) -> (next: Option<Grip>)
        ensures
            next == Grip::at(self.level() + 2),
    {
        match self.increase() {
            Some(once) => once.increase(),
            None => None,
        }
    }

    /// Two positions down, one after the other; `None` unless both exist.
    pub fn dec2(self) -> (next: Option<Grip>)
        ensures
            next == Grip::at(self.level() - 2),
    {
        match self.decrease() {
            Some(once) => once.decrease(),
            None => None,
        }
    }

    /// Carries out a request: the grip that many positions away, or `None`
    /// if the hand cannot turn that far.
    #[verifier::when_used_as_spec(spec_changeby)]
    pub fn changeby(self, change: VMove) -> (next: Option<Grip>)
        ensures
            next == self.spec_changeby(change),
    {
        match change {
            VMove::Plus1 => self.increase(),
            VMove::Plus2 => self.inc2(),
            VMove::Minus1 => self.decrease(),
            VMove::Minus2 => self.dec2(),
        }
    }

    /// The rotation of the cube that this grip stands for.
    #[verifier::when_used_as_spec(spec_rotation)]
    pub fn rotation(self) -> (rot: FullCubeRotation)
        ensures
            rot == self.spec_rotation(),
    {
        match self {
            Grip::G0 => FullCubeRotation::X2,
            Grip::G1 => FullCubeRotation::X,
            Grip::G2 => FullCubeRotation::Ident,
            Grip::G3 => FullCubeRotation::Xi,
        }
    }
}

/// The grips of the left and of the right hand, in this order.
#[derive(Debug, Copy, Clone, PartialEq, Eq, Structural)]
pub struct HandGrip(pub Grip, pub Grip);

/// A finger trick: one finger of one hand pushes or pulls.
#[derive(Debug, Copy, Clone, PartialEq, Eq, Structural)]
pub struct FingerMove(pub Finger, pub Hand, pub Direction);

/// A turn of one wrist, which turns that hand's own face and changes its
/// grip.
#[derive(Debug, Copy, Clone, PartialEq, Eq, Structural)]
pub struct HandMove(pub VMove, pub Hand);

impl HandGrip {
    /// The grip of one hand.
    pub open spec fn grip_of(self, hand: Hand) -> Grip {
        match hand {
            Hand::Left => self.0,
            Hand::Right => self.1,
        }
    }

    /// These grips with that of one hand replaced.
    pub open spec fn with_grip(self, hand: Hand, grip: Grip) -> HandGrip {
        match hand {
            Hand::Left => HandGrip(grip, self.1),
            Hand::Right => HandGrip(self.0, grip),
        }
    }

    /// The grips after a wrist turn: the turning hand's grip changes as
    /// asked and the other hand's stays. `None` if the turning hand cannot
    /// turn that far.
    pub open spec fn spec_change_by(self, change: HandMove) -> Option<HandGrip> {
        match self.grip_of(change.1).changeby(change.0) {
            Some(grip) => Some(self.with_grip(change.1, grip)),
            None => None,
        }
    }

    /// The grips after a wrist turn, or `None` if the turning hand cannot
    /// turn that far.
    #[verifier::when_used_as_spec(spec_change_by)]
    pub fn change_by(self, change: HandMove) -> (next: Option<HandGrip>)
        ensures
            next == self.spec_change_by(change),
    {
        match change.1 {
            Hand::Left => match self.0.changeby(change.0) {
                Some(grip) => Some(HandGrip(grip, self.1)),
                None => None,
            },
            Hand::Right => match self.1.changeby(change.0) {
                Some(grip) => Some(HandGrip(self.0, grip)),
                None => None,
            },
        }
    }
}

impl FingerMove {
    /// What the finger trick turns while its hand is in the neutral grip.
    ///
    /// The face is the one under the finger. The sense is that of the left
    /// hand's push, reversed once for the right hand, which mirrors the
    /// left, and once more for a pull.
    pub open spec fn spec_baseline(self) -> AbsMove {
        let pushed = match self.1 {
            Hand::Left => self.0.left_push(),
            Hand::Right => self.0.left_push().inverse(),
        };
        let turn = match self.2 {
            Direction::Push => pushed,
            Direction::Pull => pushed.inverse(),
        };
        AbsMove(self.0.face(), turn)
    }

    /// What the finger trick turns under the given grips: the neutral-grip
    /// face, relabelled by the rotation that the acting hand's grip stands
    /// for, and the neutral-grip turn as it is.
    pub open spec fn spec_into_absolute(self, hgrip: HandGrip) -> AbsMove {
        AbsMove(
            hgrip.grip_of(self.1).rotation().apply_to_side(self.baseline().0),
            self.baseline().1,
        )
    }

    /// What the finger trick turns while its hand is in the neutral grip.
    #[verifier::when_used_as_spec(spec_baseline)]
    pub fn baseline(self) -> (mov: AbsMove)
        ensures
            mov == self.spec_baseline(),
    {
        match (self.0, self.1, self.2) {
            (Finger::Thumb, Hand::Left, Direction::Push) => AbsMove(Side::F, MoveDirection::CW),
            (Finger::Index, Hand::Left, Direction::Push) => AbsMove(Side::U, MoveDirection::CW),
            (Finger::Middle, Hand::Left, Direction::Push) => AbsMove(Side::U, MoveDirection::CW),
            (Finger::Ring, Hand::Left, Direction::Push) => AbsMove(Side::D, MoveDirection::CCW),
            (Finger::Little, Hand::Left, Direction::Push) => AbsMove(Side::D, MoveDirection::CCW),
            (Finger::Thumb, Hand::Left, Direction::Pull) => AbsMove(Side::F, MoveDirection::CCW),
            (Finger::Index, Hand::Left, Direction::Pull) => AbsMove(Side::U, MoveDirection::CCW),
            (Finger::Middle, Hand::Left, Direction::Pull) => AbsMove(Side::U, MoveDirection::CCW),
            (Finger::Ring, Hand::Left, Direction::Pull) => AbsMove(Side::D, MoveDirection::CW),
            (Finger::Little, Hand::Left, Direction::Pull) => AbsMove(Side::D, MoveDirection::CW),
            (Finger::Thumb, Hand::Right, Direction::Push) => AbsMove(Side::F, MoveDirection::CCW),
            (Finger::Index, Hand::Right, Direction::Push) => AbsMove(Side::U, MoveDirection::CCW),
            (Finger::Middle, Hand::Right, Direction::Push) => AbsMove(Side::U, MoveDirection::CCW),
            (Finger::Ring, Hand::Right, Direction::Push) => AbsMove(Side::D, MoveDirection::CW),
            (Finger::Little, Hand::Right, Direction::Push) => AbsMove(Side::D, MoveDirection::CW),
            (Finger::Thumb, Hand::Right, Direction::Pull) => AbsMove(Side::F, MoveDirection::CW),
            (Finger::Index, Hand::Right, Direction::Pull) => AbsMove(Side::U, MoveDirection::CW),
            (Finger::Middle, Hand::Right, Direction::Pull) => AbsMove(Side::U, MoveDirection::CW),
            (Finger::Ring, Hand::Right, Direction::Pull) => AbsMove(Side::D, MoveDirection::CCW),
            (Finger::Little, Hand::Right, Direction::Pull) => AbsMove(Side::D, MoveDirection::CCW),
        }
    }

    /// What the finger trick turns under the given grips.
    ///
    /// Only the acting hand's grip matters, and only for the face: in the
    /// neutral grip `G2` the result is the baseline itself.
    #[verifier::when_used_as_spec(spec_into_absolute)]
    pub fn into_absolute(self, hgrip: HandGrip) -> (mov: AbsMove)
        ensures
            mov == self.spec_into_absolute(hgrip),
            hgrip.grip_of(self.1) == Grip::G2 ==> mov == self.baseline(),
    {
        let move_g2 = self.baseline();
        let grip = match self.1 {
            Hand::Left => hgrip.0,
            Hand::Right => hgrip.1,
        };
        AbsMove(grip.rotation().apply_to_side(move_g2.0), move_g2.1)
    }
}

impl HandMove {
    /// What the wrist turn turns, whatever the grips: the left hand turns
    /// `L` and the right hand `R`. One step is a quarter turn, whose sense
    /// depends on the hand and on the sign; two steps either way are the half
    /// turn.
    pub open spec fn spec_into_absolute(self) -> AbsMove {
        let side = match self.1 {
            Hand::Left => Side::L,
            Hand::Right => Side::R,
        };
        let up = match self.1 {
            Hand::Left => MoveDirection::CCW,
            Hand::Right => MoveDirection::CW,
        };
        let turn = match self.0 {
            VMove::Plus1 => up,
            VMove::Minus1 => up.inverse(),
            VMove::Plus2 => MoveDirection::Double,
            VMove::Minus2 => MoveDirection::Double,
        };
        AbsMove(side, turn)
    }

    /// What the wrist turn turns. The grips play no part in it.
    #[verifier::when_used_as_spec(spec_into_absolute)]
    pub fn into_absolute(self) -> (mov: AbsMove)
        ensures
            mov == self.spec_into_absolute(),
    {
        match (self.0, self.1) {
            (VMove::Plus1, Hand::Left) => AbsMove(Side::L, MoveDirection::CCW),
            (VMove::Minus1, Hand::Left) => AbsMove(Side::L, MoveDirection::CW),
            (VMove::Plus2, Hand::Left) | (VMove::Minus2, Hand::Left) => AbsMove(
                Side::L,
                MoveDirection::Double,
            ),
            (VMove::Plus1, Hand::Right) => AbsMove(Side::R, MoveDirection::CW),
            (VMove::Minus1, Hand::Right) => AbsMove(Side::R, MoveDirection::CCW),
            (VMove::Plus2, Hand::Right) | (VMove::Minus2, Hand::Right) => AbsMove(
                Side::R,
                MoveDirection::Double,
            ),
        }
    }
}

/// One action of an algorithm.
#[derive(Debug, Copy, Clone, PartialEq, Eq, Structural)]
pub enum Move {
    /// A finger pushes or pulls.
    FingerMove(FingerMove),
    /// A wrist turns.
    HandMove(HandMove),
    /// Both hands let go and take hold again in the given grips, without
    /// turning anything.
    Regrip(HandGrip),
}

impl Move {
    /// The absolute move that this action makes under the given grips, if it
    /// makes one. A wrist turn makes its move whether or not the hand can
    /// then settle in its new grip; a regrip makes none.
    pub open spec fn emits(self, grip: HandGrip) -> Option<AbsMove> {
        match self {
            Move::FingerMove(fm) => Some(fm.into_absolute(grip)),
            Move::HandMove(hm) => Some(hm.into_absolute()),
            Move::Regrip(_) => None,
        }
    }

    /// The grips in which this action leaves the hands; `None` if it is a
    /// wrist turn that goes too far. A finger trick leaves the grips alone
    /// and a regrip replaces them.
    pub open spec fn next_grip(self, grip: HandGrip) -> Option<HandGrip> {
        match self {
            Move::FingerMove(_) => Some(grip),
            Move::HandMove(hm) => grip.change_by(hm),
            Move::Regrip(to) => Some(to),
        }
    }
}

/// The grips after `moves` have been carried out in order, starting from
/// `init`; `None` once a wrist turn among them has gone too far.
pub open spec fn grip_after(init: HandGrip, moves: Seq<Move>) -> Option<HandGrip>
    decreases moves.len(),
{
    if moves.len() == 0 {
        Some(init)
    } else {
        match grip_after(init, moves.drop_last()) {
            Some(grip) => moves.last().next_grip(grip),
            None => None,
        }
    }
}

/// The absolute moves that `moves` make in order, starting from `init`.
/// Each action counts under the grips that the actions before it have left.
/// A wrist turn that goes too far still makes its own move; nothing after
/// it makes any.
pub open spec fn emitted(init: HandGrip, moves: Seq<Move>) -> Seq<AbsMove>
    decreases moves.len(),
{
    if moves.len() == 0 {
        Seq::empty()
    } else {
        let before = emitted(init, moves.drop_last());
        match grip_after(init, moves.drop_last()) {
            Some(grip) => match moves.last().emits(grip) {
                Some(mov) => before.push(mov),
                None => before,
            },
            None => before,
        }
    }
}

/// A starting pair of grips and the actions to carry out from there.
#[derive(Debug)]
pub struct Algorithm {
    pub init_grip: HandGrip,
    pub moves: Vec<Move>,
}

/// The failure of a translation: a wrist turn asked a hand to turn further
/// than it can.
#[derive(Debug, PartialEq, Eq)]
pub struct GripOverflow {
    /// The place of the offending wrist turn in the algorithm, from 0.
    pub step: usize,
    /// The offending wrist turn.
    pub hand_move: HandMove,
    /// The grips in which it was attempted. They are those left by the
    /// actions before it: the failed turn has changed nothing.
    pub grip: HandGrip,
    /// The absolute moves made up to the failure, the offending turn's own
    /// move last. They are no translation of the algorithm.
    pub emitted: Vec<AbsMove>,
}

impl GripOverflow {
    /// Whether this failure is the one that `moves` run into from `init`:
    /// all actions before `step` are carried out, the action at `step` is a
    /// wrist turn that goes too far from the grips reached there, and
    /// `emitted` holds every move made so far, this turn's included.
    pub open spec fn is_overflow_of(self, init: HandGrip, moves: Seq<Move>) -> bool {
        &&& self.step < moves.len()
        &&& grip_after(init, moves.take(self.step as int)) == Some(self.grip)
        &&& moves[self.step as int] == Move::HandMove(self.hand_move)
        &&& self.grip.change_by(self.hand_move) is None
        &&& self.emitted@ == emitted(init, moves.take(self.step + 1))
    }
}

/// Appending one action to `moves`: it counts under the grips that `moves`
/// have left, and counts for nothing after a failure.
pub proof fn lemma_append_move(init: HandGrip, moves: Seq<Move>, mov: Move)
    ensures
        grip_after(init, moves.push(mov)) == match grip_after(init, moves) {
            Some(grip) => mov.next_grip(grip),
            None => None,
        },
        emitted(init, moves.push(mov)) == match grip_after(init, moves) {
            Some(grip) => match mov.emits(grip) {
                Some(made) => emitted(init, moves).push(made),
                None => emitted(init, moves),
            },
            None => emitted(init, moves),
        },
{
    assert(moves.push(mov).drop_last() =~= moves);
    assert(moves.push(mov).last() == mov);
}

/// A failure is final: once a wrist turn among the first `k` actions has
/// gone too far, no later action brings the grips back or makes a move.
pub proof fn lemma_overflow_is_final(init: HandGrip, moves: Seq<Move>, k: int)
    requires
        0 <= k <= moves.len(),
        grip_after(init, moves.take(k)) is None,
    ensures
        grip_after(init, moves) is None,
        emitted(init, moves) == emitted(init, moves.take(k)),
    decreases moves.len(),
{
    if k == moves.len() {
        assert(moves.take(k) =~= moves);
    } else {
        assert(moves.drop_last().take(k) =~= moves.take(k));
        lemma_overflow_is_final(init, moves.drop_last(), k);
    }
}

impl Algorithm {
    /// Translates the algorithm into the absolute moves that it makes.
    ///
    /// The actions are carried out in order from `init_grip`. The result is
    /// `Ok` with all moves made if every wrist turn stays within its hand's
    /// reach. Otherwise it is `Err` for the first wrist turn that does not,
    /// and the translation stops there, after that turn's own move.
    pub fn into_absolute(self) -> (res: Result<Vec<AbsMove>, GripOverflow>)
        ensures
            res is Ok <==> grip_after(self.init_grip, self.moves@) is Some,
            res matches Ok(out) ==> out@ == emitted(self.init_grip, self.moves@),
            res matches Err(e) ==> e.is_overflow_of(self.init_grip, self.moves@)
                && e.emitted@ == emitted(self.init_grip, self.moves@),
    {
        let mut res: Vec<AbsMove> = Vec::new();
        let mut current_grip = self.init_grip;
        let mut i: usize = 0;
        while i < self.moves.len()
            invariant
                i <= self.moves.len(),
                grip_after(self.init_grip, self.moves@.take(i as int)) == Some(current_grip),
                res@ == emitted(self.init_grip, self.moves@.take(i as int)),
            decreases self.moves.len() - i,
        {
            proof {
                assert(self.moves@.take(i + 1) =~= self.moves@.take(i as int).push(
                    self.moves@[i as int],
                ));
                lemma_append_move(self.init_grip, self.moves@.take(i as int), self.moves@[i as int]);
            }
            match self.moves[i] {
                Move::FingerMove(fm) => {
                    res.push(fm.into_absolute(current_grip));
                },
                Move::HandMove(hm) => {
                    res.push(hm.into_absolute());
                    match current_grip.change_by(hm) {
                        Some(ngrip) => {
                            current_grip = ngrip;
                        },
                        None => {
                            proof {
                                lemma_overflow_is_final(self.init_grip, self.moves@, i + 1);
                            }
                            return Err(
                                GripOverflow {
                                    step: i,
                                    hand_move: hm,
                                    grip: current_grip,
                                    emitted: res,
                                },
                            );
                        },
                    }
                },
                Move::Regrip(grip) => {
                    current_grip = grip;
                },
            }
            i += 1;
        }
        proof {
            assert(self.moves@.take(i as int) =~= self.moves@);
        }
        Ok(res)
    }
}

/// A grip never leaves the four positions. A request is granted exactly
/// when the position it asks for exists, and then leads exactly there.
pub proof fn lemma_grip_stays_in_range(grip: Grip, change: VMove)
    ensures
        0 <= grip.level() <= 3,
        grip.changeby(change) is Some <==> 0 <= grip.level() + change.steps() <= 3,
        grip.changeby(change) matches Some(next) ==> next.level() == grip.level()
            + change.steps(),
{
}

/// A request for two positions is granted exactly when two requests for one
/// position in the same sense are granted one after the other, and leads
/// where they lead.
pub proof fn lemma_double_step_is_two_single_steps(grip: Grip)
    ensures
        grip.changeby(VMove::Plus2) == match grip.changeby(VMove::Plus1) {
            Some(once) => once.changeby(VMove::Plus1),
            None => None,
        },
        grip.changeby(VMove::Minus2) == match grip.changeby(VMove::Minus1) {
            Some(once) => once.changeby(VMove::Minus1),
            None => None,
        },
{
}

/// Each position that a grip goes up takes one quarter turn off the rotation
/// that it stands for, and each position down adds one.
pub proof fn lemma_grip_change_turns_rotation(grip: Grip, change: VMove)
    requires
        grip.changeby(change) is Some,
    ensures
        grip.changeby(change).unwrap().rotation() == FullCubeRotation::of_quarter_turns(
            grip.rotation().quarter_turns() - change.steps(),
        ),
{
}

/// A wrist turn changes the grip of its own hand only.
pub proof fn lemma_wrist_turn_keeps_other_hand(grip: HandGrip, change: HandMove, hand: Hand)
    requires
        grip.change_by(change) is Some,
    ensures
        grip.change_by(change).unwrap().grip_of(change.1) == grip.grip_of(change.1).changeby(
            change.0,
        ).unwrap(),
        hand != change.1 ==> grip.change_by(change).unwrap().grip_of(hand) == grip.grip_of(hand),
{
}

/// The two hands mirror each other: the same finger moving the same way
/// turns the same face with either hand, in opposite senses.
pub proof fn lemma_hands_mirror(finger: Finger, direction: Direction)
    ensures
        FingerMove(finger, Hand::Left, direction).baseline().0 == FingerMove(
            finger,
            Hand::Right,
            direction,
        ).baseline().0,
        FingerMove(finger, Hand::Left, direction).baseline().1 == FingerMove(
            finger,
            Hand::Right,
            direction,
        ).baseline().1.inverse(),
        FingerMove(finger, Hand::Left, direction).baseline().1 != FingerMove(
            finger,
            Hand::Right,
            direction,
        ).baseline().1,
{
}

/// A pull undoes a push: the same finger of the same hand turns the same
/// face either way, in opposite senses.
pub proof fn lemma_pull_inverts_push(finger: Finger, hand: Hand)
    ensures
        FingerMove(finger, hand, Direction::Push).baseline().0 == FingerMove(
            finger,
            hand,
            Direction::Pull,
        ).baseline().0,
        FingerMove(finger, hand, Direction::Push).baseline().1 == FingerMove(
            finger,
            hand,
            Direction::Pull,
        ).baseline().1.inverse(),
        FingerMove(finger, hand, Direction::Push).baseline().1 != FingerMove(
            finger,
            hand,
            Direction::Pull,
        ).baseline().1,
{
}

/// In the neutral grip a finger trick is a quarter turn of the front, the top
/// or the bottom face.
pub proof fn lemma_baseline_reaches_three_faces(fm: FingerMove)
    ensures
        fm.baseline().0 == Side::F || fm.baseline().0 == Side::U || fm.baseline().0 == Side::D,
        fm.baseline().1 != MoveDirection::Double,
{
}

/// While the acting hand is in the neutral grip `G2`, a finger trick turns
/// exactly what its baseline says, whatever the other hand's grip.
pub proof fn lemma_neutral_grip_is_baseline(fm: FingerMove, hgrip: HandGrip)
    requires
        hgrip.grip_of(fm.1) == Grip::G2,
    ensures
        fm.into_absolute(hgrip) == fm.baseline(),
{
}

/// A grip changes the face that a finger trick turns and never the turn.
/// The grip of the hand that does not act changes nothing. The face never
/// becomes one of the two that the hands hold.
pub proof fn lemma_grip_relabels_face_only(fm: FingerMove, hgrip: HandGrip, other: HandGrip)
    requires
        other.grip_of(fm.1) == hgrip.grip_of(fm.1),
    ensures
        fm.into_absolute(hgrip).1 == fm.baseline().1,
        fm.into_absolute(hgrip) == fm.into_absolute(other),
        fm.into_absolute(hgrip).0 != Side::L,
        fm.into_absolute(hgrip).0 != Side::R,
{
}

/// A wrist turn turns its own hand's face: `L` for the left hand, `R` for
/// the right. One step is a quarter turn, undone by the step back and
/// mirrored by the other hand; two steps either way are the same half turn.
pub proof fn lemma_wrist_turn_turns_own_face(change: VMove, hand: Hand)
    ensures
        HandMove(change, Hand::Left).into_absolute().0 == Side::L,
        HandMove(change, Hand::Right).into_absolute().0 == Side::R,
        HandMove(VMove::Plus1, hand).into_absolute().1 == HandMove(
            VMove::Minus1,
            hand,
        ).into_absolute().1.inverse(),
        HandMove(VMove::Plus1, hand).into_absolute().1 != MoveDirection::Double,
        HandMove(VMove::Plus2, hand).into_absolute().1 == MoveDirection::Double,
        HandMove(VMove::Minus2, hand).into_absolute().1 == MoveDirection::Double,
        HandMove(change, Hand::Left).into_absolute().1 == HandMove(
            change,
            Hand::Right,
        ).into_absolute().1.inverse(),
{
}

/// However many actions have been carried out, both grips are among the
/// four positions; and if all of `moves` can be carried out, so can the
/// first `k` of them.
pub proof fn lemma_grips_stay_in_range(init: HandGrip, moves: Seq<Move>, k: int)
    requires
        0 <= k <= moves.len(),
        grip_after(init, moves) is Some,
    ensures
        grip_after(init, moves.take(k)) is Some,
        0 <= grip_after(init, moves.take(k)).unwrap().0.level() <= 3,
        0 <= grip_after(init, moves.take(k)).unwrap().1.level() <= 3,
{
    if grip_after(init, moves.take(k)) is None {
        lemma_overflow_is_final(init, moves, k);
    }
}

/// A finger trick never changes the grips, and turns what it turns under
/// the grips in effect when it comes.
pub proof fn lemma_finger_trick_keeps_grips(init: HandGrip, moves: Seq<Move>, fm: FingerMove)
    requires
        grip_after(init, moves) is Some,
    ensures
        grip_after(init, moves.push(Move::FingerMove(fm))) == grip_after(init, moves),
        emitted(init, moves.push(Move::FingerMove(fm))) == emitted(init, moves).push(
            fm.into_absolute(grip_after(init, moves).unwrap()),
        ),
{
    lemma_append_move(init, moves, Move::FingerMove(fm));
}

/// A wrist turn makes its move before its hand settles: the move is made
/// whether or not the new grip exists, and it does not depend on the grips.
pub proof fn lemma_wrist_turn_moves_first(init: HandGrip, moves: Seq<Move>, hm: HandMove)
    requires
        grip_after(init, moves) is Some,
    ensures
        emitted(init, moves.push(Move::HandMove(hm))) == emitted(init, moves).push(
            hm.into_absolute(),
        ),
        grip_after(init, moves.push(Move::HandMove(hm))) == grip_after(
            init,
            moves,
        ).unwrap().change_by(hm),
{
    lemma_append_move(init, moves, Move::HandMove(hm));
}

/// A regrip is always accepted. It makes no move and replaces both grips,
/// whatever they were; a finger trick that follows is read under the new
/// grips.
pub proof fn lemma_regrip_replaces_grips(
    init: HandGrip,
    moves: Seq<Move>,
    to: HandGrip,
    fm: FingerMove,
)
    requires
        grip_after(init, moves) is Some,
    ensures
        grip_after(init, moves.push(Move::Regrip(to))) == Some(to),
        emitted(init, moves.push(Move::Regrip(to))) == emitted(init, moves),
        emitted(init, moves.push(Move::Regrip(to)).push(Move::FingerMove(fm))) == emitted(
            init,
            moves,
        ).push(fm.into_absolute(to)),
{
    lemma_append_move(init, moves, Move::Regrip(to));
    lemma_append_move(init, moves.push(Move::Regrip(to)), Move::FingerMove(fm));
}

} // verus!
