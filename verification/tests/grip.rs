use fingertricks::moves::{Grip, Hand, HandGrip, HandMove, VMove};
use fingertricks::rotation::FullCubeRotation;

fn grips() -> [Grip; 4] {
    [Grip::G0, Grip::G1, Grip::G2, Grip::G3]
}

fn changes() -> [(VMove, i32); 4] {
    [(VMove::Plus1, 1), (VMove::Minus1, -1), (VMove::Plus2, 2), (VMove::Minus2, -2)]
}

#[test]
fn levels_run_from_zero_to_three() {
    assert_eq!(Grip::G0.level(), 0);
    assert_eq!(Grip::G1.level(), 1);
    assert_eq!(Grip::G2.level(), 2);
    assert_eq!(Grip::G3.level(), 3);
}

#[test]
fn from_level_accepts_the_four_positions_only() {
    assert_eq!(Grip::from_level(0), Some(Grip::G0));
    assert_eq!(Grip::from_level(1), Some(Grip::G1));
    assert_eq!(Grip::from_level(2), Some(Grip::G2));
    assert_eq!(Grip::from_level(3), Some(Grip::G3));
    assert_eq!(Grip::from_level(4), None);
    assert_eq!(Grip::from_level(255), None);
}

#[test]
fn from_level_undoes_level() {
    for grip in grips() {
        assert_eq!(Grip::from_level(grip.level()), Some(grip));
    }
}

#[test]
fn grips_are_ordered_by_level() {
    assert!(Grip::G0 < Grip::G1);
    assert!(Grip::G1 < Grip::G2);
    assert!(Grip::G2 < Grip::G3);
}

#[test]
fn increase_stops_at_the_top() {
    assert_eq!(Grip::G0.increase(), Some(Grip::G1));
    assert_eq!(Grip::G1.increase(), Some(Grip::G2));
    assert_eq!(Grip::G2.increase(), Some(Grip::G3));
    assert_eq!(Grip::G3.increase(), None);
}

#[test]
fn decrease_stops_at_the_bottom() {
    assert_eq!(Grip::G0.decrease(), None);
    assert_eq!(Grip::G1.decrease(), Some(Grip::G0));
    assert_eq!(Grip::G2.decrease(), Some(Grip::G1));
    assert_eq!(Grip::G3.decrease(), Some(Grip::G2));
}

#[test]
fn inc2_needs_two_free_positions() {
    assert_eq!(Grip::G0.inc2(), Some(Grip::G2));
    assert_eq!(Grip::G1.inc2(), Some(Grip::G3));
    assert_eq!(Grip::G2.inc2(), None);
    assert_eq!(Grip::G3.inc2(), None);
}

#[test]
fn dec2_needs_two_free_positions() {
    assert_eq!(Grip::G0.dec2(), None);
    assert_eq!(Grip::G1.dec2(), None);
    assert_eq!(Grip::G2.dec2(), Some(Grip::G0));
    assert_eq!(Grip::G3.dec2(), Some(Grip::G1));
}

#[test]
fn changeby_table() {
    let expected = [
        (Grip::G0, VMove::Plus1, Some(Grip::G1)),
        (Grip::G1, VMove::Plus1, Some(Grip::G2)),
        (Grip::G2, VMove::Plus1, Some(Grip::G3)),
        (Grip::G3, VMove::Plus1, None),
        (Grip::G0, VMove::Minus1, None),
        (Grip::G1, VMove::Minus1, Some(Grip::G0)),
        (Grip::G2, VMove::Minus1, Some(Grip::G1)),
        (Grip::G3, VMove::Minus1, Some(Grip::G2)),
        (Grip::G0, VMove::Plus2, Some(Grip::G2)),
        (Grip::G1, VMove::Plus2, Some(Grip::G3)),
        (Grip::G2, VMove::Plus2, None),
        (Grip::G3, VMove::Plus2, None),
        (Grip::G0, VMove::Minus2, None),
        (Grip::G1, VMove::Minus2, None),
        (Grip::G2, VMove::Minus2, Some(Grip::G0)),
        (Grip::G3, VMove::Minus2, Some(Grip::G1)),
    ];
    for (grip, change, next) in expected {
        assert_eq!(grip.changeby(change), next);
    }
}

#[test]
fn changeby_moves_exactly_or_not_at_all() {
    for grip in grips() {
        for (change, steps) in changes() {
            let target: i32 = i32::from(grip.level()) + steps;
            match grip.changeby(change) {
                Some(next) => {
                    assert!((0..=3).contains(&target));
                    assert_eq!(i32::from(next.level()), target);
                }
                None => assert!(!(0..=3).contains(&target)),
            }
        }
    }
}

#[test]
fn double_change_is_two_single_changes() {
    for grip in grips() {
        assert_eq!(
            grip.changeby(VMove::Plus2),
            grip.changeby(VMove::Plus1).and_then(|g| g.changeby(VMove::Plus1))
        );
        assert_eq!(
            grip.changeby(VMove::Minus2),
            grip.changeby(VMove::Minus1).and_then(|g| g.changeby(VMove::Minus1))
        );
    }
}

#[test]
fn long_walk_never_leaves_the_range() {
    let walk = [
        VMove::Plus1,
        VMove::Plus1,
        VMove::Plus2,
        VMove::Minus2,
        VMove::Minus2,
        VMove::Minus1,
        VMove::Minus1,
        VMove::Plus2,
        VMove::Plus2,
        VMove::Plus1,
        VMove::Minus1,
    ];
    let mut grip = Grip::G2;
    let mut refused: u32 = 0;
    for change in walk {
        match grip.changeby(change) {
            Some(next) => grip = next,
            None => refused += 1,
        }
        assert!(grip.level() <= 3);
    }
    assert_eq!(refused, 5);
    assert_eq!(grip, Grip::G2);
}

#[test]
fn grip_rotation_mapping() {
    assert_eq!(Grip::G0.rotation(), FullCubeRotation::X2);
    assert_eq!(Grip::G1.rotation(), FullCubeRotation::X);
    assert_eq!(Grip::G2.rotation(), FullCubeRotation::Ident);
    assert_eq!(Grip::G3.rotation(), FullCubeRotation::Xi);
}

#[test]
fn one_position_up_takes_a_quarter_turn_off() {
    for grip in [Grip::G0, Grip::G1, Grip::G2] {
        let up = grip.changeby(VMove::Plus1).unwrap();
        assert_eq!(up.rotation(), grip.rotation().compose(FullCubeRotation::Xi));
        assert_eq!(up.changeby(VMove::Minus1), Some(grip));
    }
}

#[test]
fn hand_grip_changes_the_turning_hand_only() {
    let grip = HandGrip(Grip::G1, Grip::G2);
    assert_eq!(
        grip.change_by(HandMove(VMove::Plus1, Hand::Left)),
        Some(HandGrip(Grip::G2, Grip::G2))
    );
    assert_eq!(
        grip.change_by(HandMove(VMove::Plus1, Hand::Right)),
        Some(HandGrip(Grip::G1, Grip::G3))
    );
    assert_eq!(
        grip.change_by(HandMove(VMove::Minus2, Hand::Right)),
        Some(HandGrip(Grip::G1, Grip::G0))
    );
    assert_eq!(
        grip.change_by(HandMove(VMove::Plus2, Hand::Left)),
        Some(HandGrip(Grip::G3, Grip::G2))
    );
}

#[test]
fn hand_grip_refuses_what_the_turning_hand_cannot_do() {
    let grip = HandGrip(Grip::G3, Grip::G0);
    assert_eq!(grip.change_by(HandMove(VMove::Plus1, Hand::Left)), None);
    assert_eq!(grip.change_by(HandMove(VMove::Plus2, Hand::Left)), None);
    assert_eq!(grip.change_by(HandMove(VMove::Minus1, Hand::Right)), None);
    assert_eq!(grip.change_by(HandMove(VMove::Minus2, Hand::Right)), None);
    assert_eq!(
        grip.change_by(HandMove(VMove::Minus1, Hand::Left)),
        Some(HandGrip(Grip::G2, Grip::G0))
    );
    assert_eq!(
        grip.change_by(HandMove(VMove::Plus1, Hand::Right)),
        Some(HandGrip(Grip::G3, Grip::G1))
    );
}

#[test]
fn hand_grip_change_agrees_with_single_grips() {
    for left in grips() {
        for right in grips() {
            for (change, _) in changes() {
                let grip = HandGrip(left, right);
                assert_eq!(
                    grip.change_by(HandMove(change, Hand::Left)),
                    left.changeby(change).map(|g| HandGrip(g, right))
                );
                assert_eq!(
                    grip.change_by(HandMove(change, Hand::Right)),
                    right.changeby(change).map(|g| HandGrip(left, g))
                );
            }
        }
    }
}
