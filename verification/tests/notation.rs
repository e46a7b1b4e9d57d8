use fingertricks::absolute_moves::{AbsMove, MoveDirection, Side};
use fingertricks::moves::{
    Algorithm, Direction, Finger, FingerMove, Grip, Hand, HandGrip, HandMove, Move, VMove,
};

#[test]
fn absolute_moves_are_written_as_letter_and_mark() {
    let expected = [
        (Side::R, MoveDirection::CW, "R"),
        (Side::R, MoveDirection::CCW, "R'"),
        (Side::R, MoveDirection::Double, "R2"),
        (Side::L, MoveDirection::CW, "L"),
        (Side::L, MoveDirection::CCW, "L'"),
        (Side::L, MoveDirection::Double, "L2"),
        (Side::U, MoveDirection::CW, "U"),
        (Side::U, MoveDirection::CCW, "U'"),
        (Side::U, MoveDirection::Double, "U2"),
        (Side::D, MoveDirection::CW, "D"),
        (Side::D, MoveDirection::CCW, "D'"),
        (Side::D, MoveDirection::Double, "D2"),
        (Side::F, MoveDirection::CW, "F"),
        (Side::F, MoveDirection::CCW, "F'"),
        (Side::F, MoveDirection::Double, "F2"),
        (Side::B, MoveDirection::CW, "B"),
        (Side::B, MoveDirection::CCW, "B'"),
        (Side::B, MoveDirection::Double, "B2"),
    ];
    for (side, turn, text) in expected {
        assert_eq!(AbsMove(side, turn).to_string(), text);
    }
}

#[test]
fn writing_a_move_twice_gives_the_same_text() {
    for side in [Side::R, Side::L, Side::U, Side::D, Side::F, Side::B] {
        for turn in [MoveDirection::CW, MoveDirection::CCW, MoveDirection::Double] {
            let mov = AbsMove(side, turn);
            assert_eq!(mov.to_string(), mov.to_string());
        }
    }
}

#[test]
fn finger_tricks_are_written_by_hand_and_direction() {
    let expected = [
        (Finger::Thumb, Hand::Left, Direction::Push, "T'"),
        (Finger::Index, Hand::Left, Direction::Push, "S'"),
        (Finger::Middle, Hand::Left, Direction::Push, "M'"),
        (Finger::Ring, Hand::Left, Direction::Push, "R'"),
        (Finger::Little, Hand::Left, Direction::Push, "L'"),
        (Finger::Thumb, Hand::Left, Direction::Pull, "T"),
        (Finger::Index, Hand::Left, Direction::Pull, "S"),
        (Finger::Middle, Hand::Left, Direction::Pull, "M"),
        (Finger::Ring, Hand::Left, Direction::Pull, "R"),
        (Finger::Little, Hand::Left, Direction::Pull, "L"),
        (Finger::Thumb, Hand::Right, Direction::Push, "t'"),
        (Finger::Index, Hand::Right, Direction::Push, "s'"),
        (Finger::Middle, Hand::Right, Direction::Push, "m'"),
        (Finger::Ring, Hand::Right, Direction::Push, "r'"),
        (Finger::Little, Hand::Right, Direction::Push, "l'"),
        (Finger::Thumb, Hand::Right, Direction::Pull, "t"),
        (Finger::Index, Hand::Right, Direction::Pull, "s"),
        (Finger::Middle, Hand::Right, Direction::Pull, "m"),
        (Finger::Ring, Hand::Right, Direction::Pull, "r"),
        (Finger::Little, Hand::Right, Direction::Pull, "l"),
    ];
    for (finger, hand, direction, text) in expected {
        assert_eq!(FingerMove(finger, hand, direction).to_string(), text);
    }
}

#[test]
fn wrist_turns_are_written_by_hand_and_change() {
    let expected = [
        (VMove::Plus1, Hand::Left, "H"),
        (VMove::Plus2, Hand::Left, "H2"),
        (VMove::Minus1, Hand::Left, "H'"),
        (VMove::Minus2, Hand::Left, "H2'"),
        (VMove::Plus1, Hand::Right, "h"),
        (VMove::Plus2, Hand::Right, "h2"),
        (VMove::Minus1, Hand::Right, "h'"),
        (VMove::Minus2, Hand::Right, "h2'"),
    ];
    for (change, hand, text) in expected {
        assert_eq!(HandMove(change, hand).to_string(), text);
    }
}

#[test]
fn grips_are_written_as_two_digits() {
    assert_eq!(HandGrip(Grip::G2, Grip::G2).to_string(), "2/2");
    assert_eq!(HandGrip(Grip::G0, Grip::G3).to_string(), "0/3");
    assert_eq!(HandGrip(Grip::G3, Grip::G1).to_string(), "3/1");
    assert_eq!(HandGrip(Grip::G1, Grip::G0).to_string(), "1/0");
}

#[test]
fn algorithm_is_written_grips_first() {
    let alg = Algorithm {
        init_grip: HandGrip(Grip::G2, Grip::G2),
        moves: vec![
            Move::HandMove(HandMove(VMove::Plus1, Hand::Right)),
            Move::FingerMove(FingerMove(Finger::Index, Hand::Left, Direction::Push)),
            Move::HandMove(HandMove(VMove::Minus1, Hand::Right)),
            Move::FingerMove(FingerMove(Finger::Index, Hand::Left, Direction::Pull)),
            Move::HandMove(HandMove(VMove::Minus1, Hand::Right)),
            Move::FingerMove(FingerMove(Finger::Index, Hand::Right, Direction::Pull)),
            Move::HandMove(HandMove(VMove::Plus2, Hand::Right)),
            Move::FingerMove(FingerMove(Finger::Index, Hand::Left, Direction::Pull)),
            Move::HandMove(HandMove(VMove::Minus1, Hand::Right)),
            Move::FingerMove(FingerMove(Finger::Index, Hand::Left, Direction::Pull)),
            Move::HandMove(HandMove(VMove::Plus1, Hand::Right)),
            Move::FingerMove(FingerMove(Finger::Index, Hand::Left, Direction::Push)),
            Move::HandMove(HandMove(VMove::Minus1, Hand::Right)),
            Move::FingerMove(FingerMove(Finger::Thumb, Hand::Right, Direction::Push)),
        ],
    };
    assert_eq!(alg.to_string(), "2/2 h S' h' S h' s h2 S h' S h S' h' t'");
    let written: Vec<String> =
        alg.into_absolute().unwrap().iter().map(|mov| mov.to_string()).collect();
    assert_eq!(written.join(" "), "R U R' U' R' F R2 U' R' U' R U R' F'");
}

#[test]
fn algorithm_without_moves_is_just_its_grips() {
    let alg = Algorithm { init_grip: HandGrip(Grip::G1, Grip::G3), moves: vec![] };
    assert_eq!(alg.to_string(), "1/3");
}

#[test]
fn regrip_is_written_as_its_grips() {
    let alg = Algorithm {
        init_grip: HandGrip(Grip::G2, Grip::G2),
        moves: vec![
            Move::FingerMove(FingerMove(Finger::Ring, Hand::Right, Direction::Pull)),
            Move::Regrip(HandGrip(Grip::G0, Grip::G3)),
            Move::HandMove(HandMove(VMove::Minus2, Hand::Left)),
        ],
    };
    assert_eq!(alg.to_string(), "2/2 r 0/3 H2'");
}

#[test]
fn values_show_their_variants_when_debugged() {
    let fm = FingerMove(Finger::Index, Hand::Left, Direction::Push);
    assert_eq!(format!("{:?}", fm), "FingerMove(Index, Left, Push)");
    assert_eq!(format!("{:?}", AbsMove(Side::F, MoveDirection::Double)), "AbsMove(F, Double)");
}
