//! What the keys that are held down ask of the camera.

use vstd::prelude::*;

verus! {

/// Which of the keys that steer the camera are held down.
#[derive(Clone, Copy, Debug, PartialEq, Eq, Structural)]
pub struct Keys {
    pub turn_left: bool,
    pub turn_right: bool,
    pub turn_up: bool,
    pub turn_down: bool,
    pub roll_left: bool,
    pub roll_right: bool,
    pub forward: bool,
    pub back: bool,
    pub strafe_left: bool,
    pub strafe_right: bool,
    pub descend: bool,
    pub ascend: bool,
}

/// The direction of a turn or of a move along an axis.
#[derive(Clone, Copy, Debug, PartialEq, Eq, Structural)]
pub enum Sense {
    Negative,
    Still,
    Positive,
}

/// The three turns of a frame. They are applied in the order of the fields:
/// first about the vertical axis of the world, then about the camera's own
/// axis to the right, then about the axis along which it looks.
#[derive(Clone, Copy, Debug, PartialEq, Eq, Structural)]
pub struct Turns {
    pub yaw: Sense,
    pub pitch: Sense,
    pub roll: Sense,
}

/// An axis of the camera, as it is after the turns of the frame.
#[derive(Clone, Copy, Debug, PartialEq, Eq, Structural)]
pub enum Axis {
    Forward,
    Right,
    Up,
}

/// One move of the camera along one of its axes.
#[derive(Clone, Copy, Debug, PartialEq, Eq, Structural)]
pub struct Move {
    pub axis: Axis,
    pub sense: Sense,
}

/// The sense of a turn with a key for each direction: that of the first
/// key where it is held, else that of the second where that one is held.
pub open spec fn sense_of(
    first: bool,
    first_sense: Sense,
    second: bool,
    second_sense: Sense,
) -> Sense {
    if first {
        first_sense
    } else if second {
        second_sense
    } else {
        Sense::Still
    }
}

/// The turns that `keys` ask for. Where both keys of a turn are held, the
/// key to the left, the key upwards and the key that rolls to the left win.
pub open spec fn turns_of(keys: Keys) -> Turns {
    Turns {
        yaw: sense_of(keys.turn_left, Sense::Negative, keys.turn_right, Sense::Positive),
        pitch: sense_of(keys.turn_up, Sense::Negative, keys.turn_down, Sense::Positive),
        roll: sense_of(keys.roll_left, Sense::Positive, keys.roll_right, Sense::Negative),
    }
}

/// The move that a key asks for while it is held, and none else.
pub open spec fn move_if(held: bool, axis: Axis, sense: Sense) -> Seq<Move> {
    if held {
        seq![Move { axis, sense }]
    } else {
        Seq::empty()
    }
}

/// The moves that `keys` ask for, in the order in which they are made.
/// Two keys that ask for opposite moves both get theirs.
pub open spec fn moves_of(keys: Keys) -> Seq<Move> {
    move_if(keys.forward, Axis::Forward, Sense::Positive) + move_if(
        keys.back,
        Axis::Forward,
        Sense::Negative,
    ) + move_if(keys.strafe_left, Axis::Right, Sense::Negative) + move_if(
        keys.strafe_right,
        Axis::Right,
        Sense::Positive,
    ) + move_if(keys.descend, Axis::Up, Sense::Negative) + move_if(
        keys.ascend,
        Axis::Up,
        Sense::Positive,
    )
}

fn sense(first: bool, first_sense: Sense, second: bool, second_sense: Sense) -> (s: Sense)
    ensures
        s == sense_of(first, first_sense, second, second_sense),
{
    if first {
        first_sense
    } else if second {
        second_sense
    } else {
        Sense::Still
    }
}

fn push_if(moves: &mut Vec<Move>, held: bool, axis: Axis, sense: Sense)
    ensures
        final(moves)@ == old(moves)@ + move_if(held, axis, sense),
{
    if held {
        moves.push(Move { axis, sense });
    }
    assert(moves@ =~= old(moves)@ + move_if(held, axis, sense));
}

impl Keys {
    /// No key held.
    pub fn none() -> (keys: Keys)
        ensures
            keys == (Keys {
                turn_left: false,
                turn_right: false,
                turn_up: false,
                turn_down: false,
                roll_left: false,
                roll_right: false,
                forward: false,
                back: false,
                strafe_left: false,
                strafe_right: false,
                descend: false,
                ascend: false,
            }),
    {
        Keys {
            turn_left: false,
            turn_right: false,
            turn_up: false,
            turn_down: false,
            roll_left: false,
            roll_right: false,
            forward: false,
            back: false,
            strafe_left: false,
            strafe_right: false,
            descend: false,
            ascend: false,
        }
    }

    /// The turns of this frame.
    pub fn turns(&self) -> (turns: Turns)
        ensures
            turns == turns_of(*self),
    {
        Turns {
            yaw: sense(self.turn_left, Sense::Negative, self.turn_right, Sense::Positive),
            pitch: sense(self.turn_up, Sense::Negative, self.turn_down, Sense::Positive),
            roll: sense(self.roll_left, Sense::Positive, self.roll_right, Sense::Negative),
        }
    }

    /// The moves of this frame, in order.
    pub fn moves(&self) -> (moves: Vec<Move>)
        ensures
            moves@ == moves_of(*self),
    {
        let mut moves: Vec<Move> = Vec::new();
        push_if(&mut moves, self.forward, Axis::Forward, Sense::Positive);
        push_if(&mut moves, self.back, Axis::Forward, Sense::Negative);
        push_if(&mut moves, self.strafe_left, Axis::Right, Sense::Negative);
        push_if(&mut moves, self.strafe_right, Axis::Right, Sense::Positive);
        push_if(&mut moves, self.descend, Axis::Up, Sense::Negative);
        push_if(&mut moves, self.ascend, Axis::Up, Sense::Positive);
        assert(moves@ =~= moves_of(*self));
        moves
    }
}

} // verus!
