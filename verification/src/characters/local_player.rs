//! The local avatar: input is applied at once, and the result is reported
//! to the store every tick.

use crate::characters::basic_player::{apply_gravity, fall, sign, BasicPlayer, BodyState};
use crate::characters::player_animation::{player_animation, SpriteUpdate};
use crate::server::elements::DBPlayerState;
use crate::vector::{DbVector2, Vector2};
use vstd::prelude::*;
use vstd::string::StringExecFns;

verus! {

/// What the player asks of the avatar this tick.
#[derive(Clone, Copy, Debug, PartialEq, Eq, Structural)]
pub struct PlayerInput {
    /// Whether the jump button went down this tick.
    pub jump_pressed: bool,
    /// The horizontal axis; only its sign counts.
    pub direction: i32,
}

/// What a tick of the local avatar asks of the engine.
#[derive(Clone, Copy, Debug, PartialEq, Eq, Structural)]
pub struct LocalStep {
    /// The velocity to move the body with.
    pub velocity: Vector2,
    pub sprite: SpriteUpdate,
}

/// The local avatar.
#[derive(Clone, Copy, Debug, PartialEq, Eq, Structural)]
pub struct LocalPlayerNode {
    pub basic_player: BasicPlayer,
}

/// Whether the avatar counts as jumping for those who watch it: the jump
/// button went down this tick, or the avatar is in the air and moves up.
pub open spec fn reports_jumping(jump_pressed: bool, is_on_floor: bool, velocity: Vector2) -> bool {
    jump_pressed || (!is_on_floor && velocity.y < 0)
}

/// What is reported to the store after the body has moved: where it is,
/// the sign of the input, and whether it counts as jumping.
pub open spec fn reported_state(input: PlayerInput, moved: BodyState) -> DBPlayerState {
    DBPlayerState {
        position: DbVector2 { x: moved.position.x, y: moved.position.y },
        direction: sign(input.direction as int) as i32,
        is_jumping: reports_jumping(input.jump_pressed, moved.is_on_floor, moved.velocity),
    }
}

impl LocalPlayerNode {
    pub fn new() -> (node: LocalPlayerNode)
        ensures
            node.basic_player == BasicPlayer::initial(),
    {
        LocalPlayerNode { basic_player: BasicPlayer::new() }
    }

    /// The query for the table the players are read from.
    pub fn setup_multiplayer() -> (query: String)
        ensures
            query@ == "SELECT * FROM player"@,
    {
        String::from_str("SELECT * FROM player")
    }

    /// The velocity after gravity and the jump rule of this tick.
    pub open spec fn velocity_after_jump(self, body: BodyState, input: PlayerInput, delta_micros: u32) -> Vector2 {
        self.basic_player.velocity_after_jump(
            Vector2 {
                x: body.velocity.x,
                y: if body.is_on_floor {
                    body.velocity.y
                } else {
                    fall(body.velocity.y, body.gravity.y, delta_micros)
                },
            },
            body.platform_velocity,
            body.is_on_floor,
            input.jump_pressed,
        )
    }

    /// The movement model after the jump rule of this tick.
    pub open spec fn basic_player_after_jump(
        self,
        body: BodyState,
        input: PlayerInput,
        delta_micros: u32,
    ) -> BasicPlayer {
        BasicPlayer {
            velocity_in_jump: if BasicPlayer::jumps(body.is_on_floor, input.jump_pressed) {
                Some(self.velocity_after_jump(body, input, delta_micros))
            } else {
                self.basic_player.velocity_in_jump
            },
            ..self.basic_player
        }
    }

    /// The velocity the body is moved with this tick: gravity acts in the
    /// air, a jump starts when the button goes down on the floor, and the
    /// input drives the horizontal part.
    pub open spec fn velocity_for_tick(self, body: BodyState, input: PlayerInput, delta_micros: u32) -> Vector2 {
        let jumped = self.velocity_after_jump(body, input, delta_micros);
        Vector2 {
            x: self.basic_player_after_jump(body, input, delta_micros).horizontal_velocity(
                jumped,
                input.direction,
                body.is_on_floor,
                delta_micros,
            ),
            y: jumped.y,
        }
    }

    /// The movement model after this tick.
    pub open spec fn basic_player_after(self, body: BodyState, input: PlayerInput, delta_micros: u32) -> BasicPlayer {
        let after_jump = self.basic_player_after_jump(body, input, delta_micros);
        BasicPlayer {
            velocity_in_jump: after_jump.momentum_after(
                self.velocity_after_jump(body, input, delta_micros),
                input.direction,
                body.is_on_floor,
                delta_micros,
            ),
            ..after_jump
        }
    }

    /// One tick of the local avatar, up to the move of the body.
    pub fn handle_local_input(&mut self, body: &BodyState, input: PlayerInput, delta_micros: u32) -> (step:
        LocalStep)
        ensures
            step == (LocalStep {
                velocity: old(self).velocity_for_tick(*body, input, delta_micros),
                sprite: player_animation(input.direction, body.is_on_floor),
            }),
            final(self).basic_player == old(self).basic_player_after(*body, input, delta_micros),
    {
        let mut velocity: Vector2 = body.velocity;
        let is_on_floor: bool = body.is_on_floor;
        if !is_on_floor {
            velocity.y = apply_gravity(velocity.y, body.gravity.y, delta_micros);
        }
        velocity = self.basic_player.handle_jump(
            velocity,
            body.platform_velocity,
            is_on_floor,
            input.jump_pressed,
        );
        self.basic_player.apply_horizontal_movement(
            &mut velocity,
            input.direction,
            is_on_floor,
            delta_micros,
        );
        let sprite = self.basic_player.handle_animation(input.direction, is_on_floor);
        LocalStep { velocity, sprite }
    }

    /// The state to report to the store, from the input of this tick and
    /// the body as it is after the move.  `moved.is_on_floor` is whether the
    /// avatar stood at the start of the tick.
    pub fn send_inputs(&self, input: PlayerInput, moved: &BodyState) -> (state: DBPlayerState)
        ensures
            state == reported_state(input, *moved),
    {
        let is_jumping: bool = input.jump_pressed || (!moved.is_on_floor && moved.velocity.y < 0);
        let direction: i32 = if input.direction > 0 {
            1
        } else if input.direction < 0 {
            -1
        } else {
            0
        };
        DBPlayerState {
            position: DbVector2::from(moved.position),
            direction,
            is_jumping,
        }
    }
}

impl Default for LocalPlayerNode {
    fn default() -> (node: LocalPlayerNode)
        ensures
            node.basic_player == BasicPlayer::initial(),
    {
        LocalPlayerNode::new()
    }
}

} // verus!
