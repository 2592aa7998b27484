use raytracing::steering::{Axis, Keys, Move, Sense, Turns};

fn still() -> Turns {
    Turns { yaw: Sense::Still, pitch: Sense::Still, roll: Sense::Still }
}

#[test]
fn no_key_asks_for_nothing() {
    let keys = Keys::none();
    assert_eq!(keys.turns(), still());
    assert_eq!(keys.moves(), vec![]);
}

#[test]
fn each_turn_key_turns_its_way() {
    let keys = Keys { turn_left: true, ..Keys::none() };
    assert_eq!(keys.turns(), Turns { yaw: Sense::Negative, ..still() });
    let keys = Keys { turn_right: true, ..Keys::none() };
    assert_eq!(keys.turns(), Turns { yaw: Sense::Positive, ..still() });
    let keys = Keys { turn_up: true, ..Keys::none() };
    assert_eq!(keys.turns(), Turns { pitch: Sense::Negative, ..still() });
    let keys = Keys { turn_down: true, ..Keys::none() };
    assert_eq!(keys.turns(), Turns { pitch: Sense::Positive, ..still() });
    let keys = Keys { roll_left: true, ..Keys::none() };
    assert_eq!(keys.turns(), Turns { roll: Sense::Positive, ..still() });
    let keys = Keys { roll_right: true, ..Keys::none() };
    assert_eq!(keys.turns(), Turns { roll: Sense::Negative, ..still() });
}

#[test]
fn of_two_opposite_turn_keys_the_first_wins() {
    let keys = Keys {
        turn_left: true,
        turn_right: true,
        turn_up: true,
        turn_down: true,
        roll_left: true,
        roll_right: true,
        ..Keys::none()
    };
    assert_eq!(
        keys.turns(),
        Turns { yaw: Sense::Negative, pitch: Sense::Negative, roll: Sense::Positive }
    );
    assert_eq!(keys.moves(), vec![]);
}

#[test]
fn each_move_key_moves_its_way() {
    let one = |keys: Keys| {
        assert_eq!(keys.turns(), still());
        keys.moves()
    };
    let step = |axis, sense| vec![Move { axis, sense }];
    assert_eq!(
        one(Keys { forward: true, ..Keys::none() }),
        step(Axis::Forward, Sense::Positive)
    );
    assert_eq!(one(Keys { back: true, ..Keys::none() }), step(Axis::Forward, Sense::Negative));
    assert_eq!(
        one(Keys { strafe_left: true, ..Keys::none() }),
        step(Axis::Right, Sense::Negative)
    );
    assert_eq!(
        one(Keys { strafe_right: true, ..Keys::none() }),
        step(Axis::Right, Sense::Positive)
    );
    assert_eq!(one(Keys { descend: true, ..Keys::none() }), step(Axis::Up, Sense::Negative));
    assert_eq!(one(Keys { ascend: true, ..Keys::none() }), step(Axis::Up, Sense::Positive));
}

#[test]
fn all_move_keys_move_in_order() {
    let keys = Keys {
        forward: true,
        back: true,
        strafe_left: true,
        strafe_right: true,
        descend: true,
        ascend: true,
        ..Keys::none()
    };
    assert_eq!(
        keys.moves(),
        vec![
            Move { axis: Axis::Forward, sense: Sense::Positive },
            Move { axis: Axis::Forward, sense: Sense::Negative },
            Move { axis: Axis::Right, sense: Sense::Negative },
            Move { axis: Axis::Right, sense: Sense::Positive },
            Move { axis: Axis::Up, sense: Sense::Negative },
            Move { axis: Axis::Up, sense: Sense::Positive },
        ]
    );
    let keys = Keys { back: true, ascend: true, turn_left: true, ..Keys::none() };
    assert_eq!(
        keys.moves(),
        vec![
            Move { axis: Axis::Forward, sense: Sense::Negative },
            Move { axis: Axis::Up, sense: Sense::Positive },
        ]
    );
}
