//! The movement model that the local and the remote avatars share.

use crate::characters::player_animation::{handle_player_animation, SpriteUpdate};
use crate::vector::{
    abs_diff, clamp_i32, clamp_to_i32, lemma_trunc_div_bounds, product_over, trunc_div, Vector2,
};
use vstd::prelude::*;

verus! {

/// The part of the momentum that is left after a tick in the air without
/// input, in thousandths.
pub const MOMENTUM_FACTOR: i64 = 900;

/// The scale of factors: a factor of `FACTOR_SCALE` is one.
pub const FACTOR_SCALE: i64 = 1000;

pub const MICROS_PER_SECOND: i64 = 1_000_000;

/// What the engine reports about an avatar's body at the start of a tick.
#[derive(Clone, Copy, Debug, PartialEq, Eq, Structural)]
pub struct BodyState {
    pub position: Vector2,
    pub velocity: Vector2,
    pub is_on_floor: bool,
    /// Acceleration of gravity, in steps per second per second.
    pub gravity: Vector2,
    /// Velocity of the platform the body stands on.
    pub platform_velocity: Vector2,
}

/// The movement model of an avatar.
#[derive(Clone, Copy, Debug, PartialEq, Eq, Structural)]
pub struct BasicPlayer {
    /// Horizontal speed under input.
    pub speed: i32,
    /// Vertical velocity at take-off; negative is up.
    pub jump_velocity: i32,
    /// The velocity at take-off, held while the jump lasts.
    pub velocity_in_jump: Option<Vector2>,
}

/// -1, 0 or 1 as `direction` is negative, zero or positive.
pub open spec fn sign(direction: int) -> int {
    if direction > 0 {
        1
    } else if direction < 0 {
        -1
    } else {
        0
    }
}

/// `from` moved toward `to` by `delta`, without passing it.
pub open spec fn move_toward(from: int, to: int, delta: int) -> int {
    if abs_diff(to, from) <= delta {
        to
    } else if to > from {
        from + delta
    } else if to < from {
        from - delta
    } else {
        from
    }
}

/// The vertical velocity after gravity has acted on `velocity_y` for
/// `delta_micros`.
pub open spec fn fall(velocity_y: i32, gravity_y: i32, delta_micros: u32) -> i32 {
    clamp_i32(velocity_y + trunc_div(gravity_y * delta_micros, MICROS_PER_SECOND as int))
}

/// Lets gravity act on a vertical velocity for one tick.
pub fn apply_gravity(velocity_y: i32, gravity_y: i32, delta_micros: u32) -> (after: i32)
    ensures
        after == fall(velocity_y, gravity_y, delta_micros),
{
    let gained: i128 = product_over(gravity_y as i64, delta_micros as i64, MICROS_PER_SECOND);
    assert(-0x8000_0000 * 0x1_0000_0000 <= gravity_y * delta_micros <= 0x8000_0000
        * 0x1_0000_0000) by (nonlinear_arith)
        requires
            -0x8000_0000 <= gravity_y <= 0x8000_0000,
            0 <= delta_micros <= 0x1_0000_0000,
    ;
    clamp_to_i32(velocity_y as i128 + gained)
}

impl BasicPlayer {
    /// The model of every avatar of the game: it runs 100 units a second,
    /// takes off at 300 units a second, and holds no momentum.
    pub open spec fn initial() -> BasicPlayer {
        BasicPlayer { speed: 100_000, jump_velocity: (-300_000) as i32, velocity_in_jump: None }
    }

    pub fn new() -> (player: BasicPlayer)
        ensures
            player == Self::initial(),
    {
        BasicPlayer { speed: 100_000, jump_velocity: -300_000, velocity_in_jump: None }
    }

    /// Whether a jump starts: the jump is asked for and the avatar stands.
    pub open spec fn jumps(is_on_floor: bool, jump_pressed: bool) -> bool {
        jump_pressed && is_on_floor
    }

    /// The velocity after the jump rule: at take-off the avatar gets the
    /// jump velocity and inherits the platform's horizontal velocity.
    pub open spec fn velocity_after_jump(
        self,
        velocity: Vector2,
        platform_velocity: Vector2,
        is_on_floor: bool,
        jump_pressed: bool,
    ) -> Vector2 {
        if Self::jumps(is_on_floor, jump_pressed) {
            Vector2 { x: clamp_i32(velocity.x + platform_velocity.x), y: self.jump_velocity }
        } else {
            velocity
        }
    }

    /// Starts a jump if one is asked for on the floor, and holds the
    /// velocity at take-off as the momentum of the jump.
    pub fn handle_jump(
        &mut self,
        velocity: Vector2,
        platform_velocity: Vector2,
        is_on_floor: bool,
        jump_pressed: bool,
    ) -> (after: Vector2)
        ensures
            after == old(self).velocity_after_jump(
                velocity,
                platform_velocity,
                is_on_floor,
                jump_pressed,
            ),
            final(self).speed == old(self).speed,
            final(self).jump_velocity == old(self).jump_velocity,
            final(self).velocity_in_jump == if Self::jumps(is_on_floor, jump_pressed) {
                Some(after)
            } else {
                old(self).velocity_in_jump
            },
    {
        if jump_pressed && is_on_floor {
            let after = Vector2 {
                x: clamp_to_i32(velocity.x as i128 + platform_velocity.x as i128),
                y: self.jump_velocity,
            };
            self.velocity_in_jump = Some(after);
            after
        } else {
            velocity
        }
    }

    /// The momentum that is still held at the start of the horizontal rule:
    /// none once the avatar stands and does not move up.
    pub open spec fn held_momentum(self, velocity: Vector2, is_on_floor: bool) -> Option<Vector2> {
        if is_on_floor && velocity.y >= 0 {
            None
        } else {
            self.velocity_in_jump
        }
    }

    /// The horizontal velocity for this tick.  Input drives it fully: the
    /// avatar moves at its speed, to the right for a positive direction and
    /// to the left for a negative one.  Without input, held momentum loses a tenth; without momentum the
    /// velocity moves toward zero by what the speed covers in the tick.
    pub open spec fn horizontal_velocity(
        self,
        velocity: Vector2,
        direction: i32,
        is_on_floor: bool,
        delta_micros: u32,
    ) -> i32 {
        if direction > 0 {
            self.speed
        } else if direction < 0 {
            clamp_i32(-self.speed)
        } else {
            match self.held_momentum(velocity, is_on_floor) {
                Some(held) => clamp_i32(trunc_div(held.x * MOMENTUM_FACTOR, FACTOR_SCALE as int)),
                None => clamp_i32(
                    move_toward(
                        velocity.x as int,
                        0,
                        trunc_div(self.speed * delta_micros, MICROS_PER_SECOND as int),
                    ),
                ),
            }
        }
    }

    /// The momentum held after the horizontal rule: what was held, with its
    /// horizontal part decayed if there was no input.
    pub open spec fn momentum_after(
        self,
        velocity: Vector2,
        direction: i32,
        is_on_floor: bool,
        delta_micros: u32,
    ) -> Option<Vector2> {
        match self.held_momentum(velocity, is_on_floor) {
            Some(held) => if direction != 0 {
                Some(held)
            } else {
                Some(
                    Vector2 {
                        x: self.horizontal_velocity(velocity, direction, is_on_floor, delta_micros),
                        y: held.y,
                    },
                )
            },
            None => None,
        }
    }

    /// Sets the horizontal velocity for this tick; the vertical one stays.
    pub fn apply_horizontal_movement(
        &mut self,
        velocity: &mut Vector2,
        direction: i32,
        is_on_floor: bool,
        delta_micros: u32,
    )
        ensures
            final(velocity).x == old(self).horizontal_velocity(
                *old(velocity),
                direction,
                is_on_floor,
                delta_micros,
            ),
            final(velocity).y == old(velocity).y,
            final(self).speed == old(self).speed,
            final(self).jump_velocity == old(self).jump_velocity,
            final(self).velocity_in_jump == old(self).momentum_after(
                *old(velocity),
                direction,
                is_on_floor,
                delta_micros,
            ),
    {
        let held_now: Option<Vector2> = if is_on_floor && velocity.y >= 0 {
            None
        } else {
            self.velocity_in_jump
        };
        let mut held_after: Option<Vector2> = held_now;
        let horizontal: i32 = if direction > 0 {
            self.speed
        } else if direction < 0 {
            clamp_to_i32(-(self.speed as i128))
        } else {
            match held_now {
                Some(held) => {
                    let decayed: i32 = clamp_to_i32(
                        product_over(held.x as i64, MOMENTUM_FACTOR, FACTOR_SCALE),
                    );
                    held_after = Some(Vector2 { x: decayed, y: held.y });
                    decayed
                },
                None => {
                    let step: i128 = product_over(
                        self.speed as i64,
                        delta_micros as i64,
                        MICROS_PER_SECOND,
                    );
                    proof {
                        assert(-0x8000_0000 * 0x1_0000_0000 <= self.speed * delta_micros
                            <= 0x8000_0000 * 0x1_0000_0000) by (nonlinear_arith)
                            requires
                                -0x8000_0000 <= self.speed <= 0x8000_0000,
                                0 <= delta_micros <= 0x1_0000_0000,
                        ;
                        lemma_trunc_div_bounds(
                            self.speed * delta_micros,
                            MICROS_PER_SECOND as int,
                        );
                    }
                    let from: i128 = velocity.x as i128;
                    let distance: i128 = if from >= 0 {
                        from
                    } else {
                        -from
                    };
                    let eased: i128 = if distance <= step {
                        0
                    } else if from < 0 {
                        from + step
                    } else if from > 0 {
                        from - step
                    } else {
                        from
                    };
                    clamp_to_i32(eased)
                },
            }
        };
        velocity.x = horizontal;
        self.velocity_in_jump = held_after;
    }

    /// The sprite update for this tick.
    pub fn handle_animation(&self, direction: i32, is_on_floor: bool) -> (update: SpriteUpdate)
        ensures
            update == crate::characters::player_animation::player_animation(direction, is_on_floor),
    {
        handle_player_animation(direction, is_on_floor)
    }
}

impl Default for BasicPlayer {
    fn default() -> (player: BasicPlayer)
        ensures
            player == BasicPlayer::initial(),
    {
        BasicPlayer::new()
    }
}

} // verus!
