//! Which animation an avatar shows.

use vstd::prelude::*;
use vstd::string::StringExecFns;

verus! {

/// The animations of an avatar.
#[derive(Clone, Copy, Debug, PartialEq, Eq, Structural)]
pub enum PlayerAnimation {
    Idle,
    Run,
    Jump,
}

impl PlayerAnimation {
    pub open spec fn name_spec(self) -> Seq<char> {
        match self {
            PlayerAnimation::Idle => "idle"@,
            PlayerAnimation::Run => "run"@,
            PlayerAnimation::Jump => "jump"@,
        }
    }

    /// The name of the animation in the sprite's resource.
    pub fn name(&self) -> (name: String)
        ensures
            name@ == self.name_spec(),
    {
        match self {
            PlayerAnimation::Idle => String::from_str("idle"),
            PlayerAnimation::Run => String::from_str("run"),
            PlayerAnimation::Jump => String::from_str("jump"),
        }
    }
}

/// What to do with an avatar's sprite this tick.
#[derive(Clone, Copy, Debug, PartialEq, Eq, Structural)]
pub struct SpriteUpdate {
    /// Whether to mirror the sprite, where that changes: `Some(false)` to
    /// face right, `Some(true)` to face left, `None` to leave it.
    pub flip_h: Option<bool>,
    /// The animation to play.
    pub animation: PlayerAnimation,
}

/// The sprite update for an avatar that moves in `direction` and stands on
/// the floor or not.
pub open spec fn player_animation(direction: i32, is_on_floor: bool) -> SpriteUpdate {
    SpriteUpdate {
        flip_h: if direction > 0 {
            Some(false)
        } else if direction < 0 {
            Some(true)
        } else {
            None
        },
        animation: if !is_on_floor {
            PlayerAnimation::Jump
        } else if direction == 0 {
            PlayerAnimation::Idle
        } else {
            PlayerAnimation::Run
        },
    }
}

/// Chooses the sprite update: the sprite faces the way the avatar moves and
/// keeps its facing when it does not move; in the air it jumps, on the floor
/// it runs when it moves and idles when it does not.
pub fn handle_player_animation(direction: i32, is_on_floor: bool) -> (update: SpriteUpdate)
    ensures
        update == player_animation(direction, is_on_floor),
{
    let flip_h: Option<bool> = if direction > 0 {
        Some(false)
    } else if direction < 0 {
        Some(true)
    } else {
        None
    };
    let animation = if is_on_floor {
        if direction == 0 {
            PlayerAnimation::Idle
        } else {
            PlayerAnimation::Run
        }
    } else {
        PlayerAnimation::Jump
    };
    SpriteUpdate { flip_h, animation }
}

} // verus!
