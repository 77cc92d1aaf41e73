//! A pose as the engine-facing code holds it, and as it is sent.

use crate::vector::{DbVector2, Vector2};
use vstd::prelude::*;

verus! {

/// The value of the horizontal axis when it is pushed all the way.
pub const FULL_AXIS: i32 = 1000;

/// Which way an avatar faces.
#[derive(Clone, Copy, Debug, PartialEq, Eq, Structural)]
pub enum Direction {
    Left,
    Right,
    Neutral,
}

/// A pose as it is sent.
#[derive(Clone, Copy, Debug, PartialEq, Eq, Structural)]
pub struct Positioning {
    pub coordinates: DbVector2,
    pub direction: Direction,
    pub in_on_floor: bool,
}

/// A pose as the engine-facing code holds it.
#[derive(Clone, Copy, Debug, PartialEq, Eq, Structural)]
pub struct PlayerState {
    pub position: Vector2,
    /// The horizontal axis, in thousandths: from -1000 to 1000.
    pub direction: i32,
    pub is_on_floor: bool,
}

/// The pose to send for `state`: the direction is the side the axis is
/// pushed to.
pub open spec fn positioning_of(state: PlayerState) -> Positioning {
    Positioning {
        coordinates: DbVector2 { x: state.position.x, y: state.position.y },
        direction: if state.direction > 0 {
            Direction::Right
        } else if state.direction < 0 {
            Direction::Left
        } else {
            Direction::Neutral
        },
        in_on_floor: state.is_on_floor,
    }
}

/// The pose to hold for `positioning`: the axis is pushed all the way to
/// the side of the direction.
pub open spec fn player_state_of(positioning: Positioning) -> PlayerState {
    PlayerState {
        position: Vector2 { x: positioning.coordinates.x, y: positioning.coordinates.y },
        direction: match positioning.direction {
            Direction::Left => (-FULL_AXIS) as i32,
            Direction::Right => FULL_AXIS,
            Direction::Neutral => 0,
        },
        is_on_floor: positioning.in_on_floor,
    }
}

/// A pose that was received and is sent on is the pose that was received.
pub proof fn law_positioning_round_trip(positioning: Positioning)
    ensures
        positioning_of(player_state_of(positioning)) == positioning,
{
}

impl PlayerState {
    pub fn to_positioning(&self) -> (positioning: Positioning)
        ensures
            positioning == positioning_of(*self),
    {
        let direction = if self.direction > 0 {
            Direction::Right
        } else if self.direction < 0 {
            Direction::Left
        } else {
            Direction::Neutral
        };
        Positioning {
            coordinates: DbVector2 { x: self.position.x, y: self.position.y },
            direction,
            in_on_floor: self.is_on_floor,
        }
    }

    pub fn from_positioning(positioning: &Positioning) -> (state: PlayerState)
        ensures
            state == player_state_of(*positioning),
    {
        let direction: i32 = match positioning.direction {
            Direction::Left => -FULL_AXIS,
            Direction::Right => FULL_AXIS,
            Direction::Neutral => 0,
        };
        PlayerState {
            position: Vector2::new(positioning.coordinates.x, positioning.coordinates.y),
            direction,
            is_on_floor: positioning.in_on_floor,
        }
    }
}

impl Positioning {
    pub fn to_player_state(&self) -> (state: PlayerState)
        ensures
            state == player_state_of(*self),
    {
        PlayerState::from_positioning(self)
    }

    pub fn from_player_state(state: &PlayerState) -> (positioning: Positioning)
        ensures
            positioning == positioning_of(*state),
    {
        state.to_positioning()
    }
}

} // verus!
