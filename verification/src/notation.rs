//! The written form of moves, grips and algorithms.

use vstd::prelude::*;
use vstd::string::*;
use crate::absolute_moves::{AbsMove, MoveDirection, Side};
use crate::moves::{Algorithm, Direction, Finger, FingerMove, Grip, Hand, HandGrip, HandMove, Move, VMove};

verus! {

impl Side {
    /// The letter that names the face.
    pub open spec fn letter(self) -> char {
        match self {
            Side::R => 'R',
            Side::L => 'L',
            Side::U => 'U',
            Side::D => 'D',
            Side::F => 'F',
            Side::B => 'B',
        }
    }
}

impl MoveDirection {
    /// The mark that follows the face's letter: none for a clockwise
    /// quarter turn, `'` for a counterclockwise one, `2` for a half turn.
    pub open spec fn suffix(self) -> Seq<char> {
        match self {
            MoveDirection::CW => seq![],
            MoveDirection::CCW => seq!['\''],
            MoveDirection::Double => seq!['2'],
        }
    }
}

impl AbsMove {
    /// The written form: the face's letter, then the turn's mark.
    pub open spec fn notation(self) -> Seq<char> {
        seq![self.0.letter()] + self.1.suffix()
    }

    /// Writes the move, as in `R`, `U'` or `F2`.
    pub fn to_string(&self) -> (text: String)
        ensures
            text@ == self.notation(),
    {
        proof {
            reveal_strlit("R");
            reveal_strlit("L");
            reveal_strlit("U");
            reveal_strlit("D");
            reveal_strlit("F");
            reveal_strlit("B");
            reveal_strlit("'");
            reveal_strlit("2");
        }
        let mut text = String::from_str(
            match self.0 {
                Side::R => "R",
                Side::L => "L",
                Side::U => "U",
                Side::D => "D",
                Side::F => "F",
                Side::B => "B",
            },
        );
        match self.1 {
            MoveDirection::CCW => text.append("'"),
            MoveDirection::Double => text.append("2"),
            MoveDirection::CW => {},
        }
        text
    }
}

impl Finger {
    /// The letter that names the finger: a capital for the left hand, a
    /// small letter for the right.
    pub open spec fn letter(self, hand: Hand) -> char {
        match hand {
            Hand::Left => match self {
                Finger::Thumb => 'T',
                Finger::Index => 'S',
                Finger::Middle => 'M',
                Finger::Ring => 'R',
                Finger::Little => 'L',
            },
            Hand::Right => match self {
                Finger::Thumb => 't',
                Finger::Index => 's',
                Finger::Middle => 'm',
                Finger::Ring => 'r',
                Finger::Little => 'l',
            },
        }
    }
}

impl FingerMove {
    /// The written form: the finger's letter, followed by `'` for a push.
    pub open spec fn notation(self) -> Seq<char> {
        seq![self.0.letter(self.1)] + match self.2 {
            Direction::Push => seq!['\''],
            Direction::Pull => seq![],
        }
    }

    /// Writes the finger trick, as in `S'` for a push of the left index
    /// finger or `r` for a pull of the right ring finger.
    pub fn to_string(&self) -> (text: String)
        ensures
            text@ == self.notation(),
    {
        proof {
            reveal_strlit("T");
            reveal_strlit("S");
            reveal_strlit("M");
            reveal_strlit("R");
            reveal_strlit("L");
            reveal_strlit("t");
            reveal_strlit("s");
            reveal_strlit("m");
            reveal_strlit("r");
            reveal_strlit("l");
            reveal_strlit("'");
        }
        let finger = match self.1 {
            Hand::Left => match self.0 {
                Finger::Thumb => "T",
                Finger::Index => "S",
                Finger::Middle => "M",
                Finger::Ring => "R",
                Finger::Little => "L",
            },
            Hand::Right => match self.0 {
                Finger::Thumb => "t",
                Finger::Index => "s",
                Finger::Middle => "m",
                Finger::Ring => "r",
                Finger::Little => "l",
            },
        };
        let mut text = String::from_str(finger);
        match self.2 {
            Direction::Push => text.append("'"),
            Direction::Pull => {},
        }
        text
    }
}

impl Grip {
    /// The digit that names the position.
    pub open spec fn digit(self) -> char {
        match self {
            Grip::G0 => '0',
            Grip::G1 => '1',
            Grip::G2 => '2',
            Grip::G3 => '3',
        }
    }
}

impl HandGrip {
    /// The written form: the left hand's position, a stroke, the right
    /// hand's position.
    pub open spec fn notation(self) -> Seq<char> {
        seq![self.0.digit(), '/', self.1.digit()]
    }

    /// Writes the grips, as in `2/3`.
    pub fn to_string(&self) -> (text: String)
        ensures
            text@ == self.notation(),
    {
        proof {
            reveal_strlit("0");
            reveal_strlit("1");
            reveal_strlit("2");
            reveal_strlit("3");
            reveal_strlit("/");
        }
        let mut text = String::from_str(
            match self.0 {
                Grip::G0 => "0",
                Grip::G1 => "1",
                Grip::G2 => "2",
                Grip::G3 => "3",
            },
        );
        text.append("/");
        text.append(
            match self.1 {
                Grip::G0 => "0",
                Grip::G1 => "1",
                Grip::G2 => "2",
                Grip::G3 => "3",
            },
        );
        text
    }
}

impl VMove {
    /// The mark that follows the hand's letter: none for one position up,
    /// `'` for one down, `2` for two up and `2'` for two down.
    pub open spec fn suffix(self) -> Seq<char> {
        match self {
            VMove::Plus1 => seq![],
            VMove::Plus2 => seq!['2'],
            VMove::Minus1 => seq!['\''],
            VMove::Minus2 => seq!['2', '\''],
        }
    }
}

impl HandMove {
    /// The written form: `H` for the left hand or `h` for the right, then
    /// the mark of the change.
    pub open spec fn notation(self) -> Seq<char> {
        seq![
            match self.1 {
                Hand::Left => 'H',
                Hand::Right => 'h',
            },
        ] + self.0.suffix()
    }

    /// Writes the wrist turn, as in `H`, `h2` or `h'`.
    pub fn to_string(&self) -> (text: String)
        ensures
            text@ == self.notation(),
    {
        proof {
            reveal_strlit("H");
            reveal_strlit("h");
            reveal_strlit("");
            reveal_strlit("2");
            reveal_strlit("'");
            reveal_strlit("2'");
        }
        let h = match self.1 {
            Hand::Left => "H",
            Hand::Right => "h",
        };
        let dir = match self.0 {
            VMove::Plus1 => "",
            VMove::Plus2 => "2",
            VMove::Minus1 => "'",
            VMove::Minus2 => "2'",
        };
        let mut text = String::from_str(h);
        text.append(dir);
        text
    }
}

impl Move {
    /// The written form of the action: that of the finger trick, of the
    /// wrist turn or of the grips taken.
    pub open spec fn notation(self) -> Seq<char> {
        match self {
            Move::FingerMove(fm) => fm.notation(),
            Move::HandMove(hm) => hm.notation(),
            Move::Regrip(rg) => rg.notation(),
        }
    }
}

/// The written form of a run of actions: each one after a space.
pub open spec fn moves_notation(moves: Seq<Move>) -> Seq<char>
    decreases moves.len(),
{
    if moves.len() == 0 {
        seq![]
    } else {
        moves_notation(moves.drop_last()) + seq![' '] + moves.last().notation()
    }
}

impl Algorithm {
    /// The written form: the starting grips, then each action after a
    /// space.
    pub open spec fn notation(self) -> Seq<char> {
        self.init_grip.notation() + moves_notation(self.moves@)
    }

    /// Writes the algorithm, as in `2/2 h S' h'`.
    pub fn to_string(&self) -> (text: String)
        ensures
            text@ == self.notation(),
    {
        let mut text = self.init_grip.to_string();
        let mut i: usize = 0;
        while i < self.moves.len()
            invariant
                i <= self.moves.len(),
                text@ == self.init_grip.notation() + moves_notation(self.moves@.take(i as int)),
            decreases self.moves.len() - i,
        {
            proof {
                reveal_strlit(" ");
                assert(self.moves@.take(i + 1).drop_last() =~= self.moves@.take(i as int));
                assert(self.moves@.take(i + 1).last() == self.moves@[i as int]);
            }
            text.append(" ");
            let written = match self.moves[i] {
                Move::FingerMove(fm) => fm.to_string(),
                Move::HandMove(hm) => hm.to_string(),
                Move::Regrip(rg) => rg.to_string(),
            };
            text.append(written.as_str());
            assert(text@ =~= self.init_grip.notation() + moves_notation(
                self.moves@.take(i + 1),
            ));
            i += 1;
        }
        proof {
            assert(self.moves@.take(i as int) =~= self.moves@);
        }
        text
    }
}

} // verus!
