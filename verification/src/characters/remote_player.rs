//! Remote avatars: prediction between the poses the store reports, and
//! correction against them.
//!
//! Between two reports a remote avatar moves by the same model as the local
//! one, driven by the input it last reported.  Each tick its position is
//! then held against the last reported one:
//!
//! * farther away than [`MAX_CORRECTION_DISTANCE`], it is set there at once;
//! * standing, while the report has it walking at another height, it is set
//!   there once that has lasted more than [`VERTICAL_DIFF_FRAME_THRESHOLD`]
//!   ticks, and is left alone until then;
//! * within [`CORRECTION_DEADBAND`], it is left where it is;
//! * in between, it is pulled toward the report by
//!   [`POSITION_CORRECTION_STRENGTH`], and set there once the drift has
//!   lasted more than [`DEADBAND_FRAME_THRESHOLD`] ticks.
//!
//! Distances are compared by their squares, which orders them the same way.

use crate::characters::basic_player::{
    apply_gravity, fall, BasicPlayer, BodyState, FACTOR_SCALE,
};
use crate::characters::player_animation::{player_animation, SpriteUpdate};
use crate::server::elements::DbPlayer;
use crate::vector::{
    abs_diff, distance_squared, lemma_trunc_div_bounds, product_over, trunc_div, Vector2,
};
use vstd::prelude::*;

verus! {

/// The part of the offset that one tick of blending removes, in thousandths.
pub const POSITION_CORRECTION_STRENGTH: i64 = 50;

/// The distance beyond which the avatar is set to the reported position.
pub const MAX_CORRECTION_DISTANCE: i64 = 100_000;

/// The distance up to which the avatar is left where it is.
pub const CORRECTION_DEADBAND: i64 = 1_000;

/// Ticks of vertical mismatch that are tolerated.
pub const VERTICAL_DIFF_FRAME_THRESHOLD: u32 = 10;

/// Ticks of drift that are tolerated.
pub const DEADBAND_FRAME_THRESHOLD: u32 = 60;

/// The vertical gap beyond which a walking avatar is at the wrong height.
pub const VERTICAL_DIFF_THRESHOLD: i64 = 3_000;

pub const PLAYER_SCENE_PATH: &'static str = "res://scenes/characters/remote_player.tscn";

/// A pose that the store reported for a remote avatar.
#[derive(Clone, Copy, Debug, PartialEq, Eq, Structural)]
pub struct RemoteState {
    pub position: Vector2,
    pub direction: i32,
    pub is_jumping: bool,
}

/// What a remote avatar knows and remembers between ticks.
#[derive(Clone, Copy, Debug, PartialEq, Eq, Structural)]
pub struct RemotePlayerNode {
    pub basic_player: BasicPlayer,
    /// The last pose the store reported, if any.
    pub last_server_state: Option<RemoteState>,
    /// The input that drives the prediction.
    pub current_direction: i32,
    pub current_jumping: bool,
    /// `current_jumping` at the previous tick.
    pub was_jumping: bool,
    /// Ticks in a row on which the vertical rule held.
    pub vertical_diff_frame_count: u32,
    /// Ticks in a row on which the avatar drifted.
    pub deadband_frame_count: u32,
}

/// A corrected position with the counters that go with it.
#[derive(Clone, Copy, Debug, PartialEq, Eq, Structural)]
pub struct Correction {
    pub position: Vector2,
    pub vertical_diff_frame_count: u32,
    pub deadband_frame_count: u32,
}

/// What a tick asks of the engine.
#[derive(Clone, Copy, Debug, PartialEq, Eq, Structural)]
pub struct PhysicsStep {
    /// The position to put the body at before it is moved.
    pub position: Vector2,
    /// The velocity to move the body with.
    pub velocity: Vector2,
    pub sprite: SpriteUpdate,
}

/// What is needed to show a remote avatar that has just appeared.
#[derive(Debug)]
pub struct RemotePlayerSpawn {
    pub node: RemotePlayerNode,
    /// Where the avatar appears: where the store last saw it.
    pub position: Vector2,
    /// The text of its name label.
    pub name: String,
}

/// A counter after one more tick; it stops at the largest value it can hold.
pub open spec fn next_count(count: u32) -> u32 {
    if count < u32::MAX {
        (count + 1) as u32
    } else {
        count
    }
}

/// Whether `current` is too far from `server` to be pulled there.
pub open spec fn beyond_max_correction(current: Vector2, server: Vector2) -> bool {
    distance_squared(current, server) > MAX_CORRECTION_DISTANCE * MAX_CORRECTION_DISTANCE
}

/// Whether `current` is close enough to `server` to be left alone.
pub open spec fn within_deadband(current: Vector2, server: Vector2) -> bool {
    distance_squared(current, server) <= CORRECTION_DEADBAND * CORRECTION_DEADBAND
}

/// The vertical rule: the avatar stands, while the report has it walking,
/// not jumping, at a height that differs by more than the threshold.
pub open spec fn vertical_mismatch(current: Vector2, server: RemoteState, is_on_floor: bool) -> bool {
    &&& is_on_floor
    &&& server.direction != 0
    &&& !server.is_jumping
    &&& abs_diff(server.position.y as int, current.y as int) > VERTICAL_DIFF_THRESHOLD
}

/// One coordinate after a tick of blending: the offset to `server` shrinks
/// by the correction strength, rounded toward zero.
pub open spec fn blend_coordinate(current: int, server: int) -> int {
    current + trunc_div((server - current) * POSITION_CORRECTION_STRENGTH, FACTOR_SCALE as int)
}

/// `current` pulled toward `server` by one tick of blending.
pub open spec fn blend(current: Vector2, server: Vector2) -> Vector2 {
    Vector2 {
        x: blend_coordinate(current.x as int, server.x as int) as i32,
        y: blend_coordinate(current.y as int, server.y as int) as i32,
    }
}

/// The position correction of one tick: where the avatar is put, and what
/// the two counters become.
pub open spec fn correct_position(
    current: Vector2,
    server: RemoteState,
    is_on_floor: bool,
    vertical_diff_frame_count: u32,
    deadband_frame_count: u32,
) -> Correction {
    if beyond_max_correction(current, server.position) {
        Correction {
            position: server.position,
            vertical_diff_frame_count: 0,
            deadband_frame_count: 0,
        }
    } else if vertical_mismatch(current, server, is_on_floor) {
        if next_count(vertical_diff_frame_count) > VERTICAL_DIFF_FRAME_THRESHOLD {
            Correction {
                position: server.position,
                vertical_diff_frame_count: 0,
                deadband_frame_count,
            }
        } else {
            Correction {
                position: current,
                vertical_diff_frame_count: next_count(vertical_diff_frame_count),
                deadband_frame_count,
            }
        }
    } else if within_deadband(current, server.position) {
        Correction { position: current, vertical_diff_frame_count: 0, deadband_frame_count: 0 }
    } else if next_count(deadband_frame_count) > DEADBAND_FRAME_THRESHOLD {
        Correction {
            position: server.position,
            vertical_diff_frame_count: 0,
            deadband_frame_count: next_count(deadband_frame_count),
        }
    } else {
        Correction {
            position: blend(current, server.position),
            vertical_diff_frame_count: 0,
            deadband_frame_count: next_count(deadband_frame_count),
        }
    }
}

/// A blended coordinate lies between the two it was blended from.
pub proof fn lemma_blend_coordinate_between(current: int, server: int)
    ensures
        current <= server ==> current <= blend_coordinate(current, server) <= server,
        server <= current ==> server <= blend_coordinate(current, server) <= current,
{
    let offset = server - current;
    lemma_trunc_div_bounds(offset * POSITION_CORRECTION_STRENGTH, FACTOR_SCALE as int);
    if offset >= 0 {
        assert(offset * 50 / 1000 <= offset) by (nonlinear_arith)
            requires
                offset >= 0,
        ;
    } else {
        assert((-(offset * 50)) / 1000 <= -offset) by (nonlinear_arith)
            requires
                offset < 0,
        ;
    }
}

fn count_up(count: u32) -> (next: u32)
    ensures
        next == next_count(count),
{
    if count < u32::MAX {
        count + 1
    } else {
        count
    }
}

fn blend_one(current: i32, server: i32) -> (blended: i32)
    ensures
        blended == blend_coordinate(current as int, server as int),
{
    let offset: i64 = server as i64 - current as i64;
    let pull: i128 = product_over(offset, POSITION_CORRECTION_STRENGTH, FACTOR_SCALE);
    proof {
        lemma_blend_coordinate_between(current as int, server as int);
    }
    (current as i128 + pull) as i32
}

impl RemotePlayerNode {
    /// A remote avatar of which nothing has been reported yet.
    pub open spec fn initial() -> RemotePlayerNode {
        RemotePlayerNode {
            basic_player: BasicPlayer::initial(),
            last_server_state: None,
            current_direction: 0,
            current_jumping: false,
            was_jumping: false,
            vertical_diff_frame_count: 0,
            deadband_frame_count: 0,
        }
    }

    pub fn new() -> (node: RemotePlayerNode)
        ensures
            node == Self::initial(),
    {
        RemotePlayerNode {
            basic_player: BasicPlayer::new(),
            last_server_state: None,
            current_direction: 0,
            current_jumping: false,
            was_jumping: false,
            vertical_diff_frame_count: 0,
            deadband_frame_count: 0,
        }
    }

    /// What showing the remote avatar of `player` takes: a fresh node, the
    /// position the store last saw the player at, and the player's name.
    pub fn spawn_object(player: &DbPlayer) -> (spawn: RemotePlayerSpawn)
        ensures
            spawn.node == Self::initial(),
            spawn.position == (Vector2 {
                x: player.state.position.x,
                y: player.state.position.y,
            }),
            spawn.name@ == player.name@,
    {
        RemotePlayerSpawn {
            node: RemotePlayerNode::new(),
            position: Vector2::new(player.state.position.x, player.state.position.y),
            name: player.name.clone(),
        }
    }

    /// Takes in a pose the store reports: it becomes the pose to correct
    /// against, and its input drives the prediction from now on.  Whatever
    /// was reported before is forgotten.
    pub fn set_player_position(&mut self, direction: i32, is_jumping: bool, position: Vector2)
        ensures
            *final(self) == (RemotePlayerNode {
                last_server_state: Some(RemoteState { position, direction, is_jumping }),
                current_direction: direction,
                current_jumping: is_jumping,
                ..*old(self)
            }),
    {
        self.last_server_state = Some(RemoteState { position, direction, is_jumping });
        self.current_direction = direction;
        self.current_jumping = is_jumping;
    }

    /// Holds `current_pos` against the reported pose and returns where the
    /// avatar is to be put; the counters are brought up to date.
    pub fn apply_position_correction(
        &mut self,
        current_pos: Vector2,
        server_state: &RemoteState,
        is_on_floor: bool,
    ) -> (corrected: Vector2)
        ensures
            ({
                let correction = correct_position(
                    current_pos,
                    *server_state,
                    is_on_floor,
                    old(self).vertical_diff_frame_count,
                    old(self).deadband_frame_count,
                );
                &&& corrected == correction.position
                &&& *final(self) == (RemotePlayerNode {
                    vertical_diff_frame_count: correction.vertical_diff_frame_count,
                    deadband_frame_count: correction.deadband_frame_count,
                    ..*old(self)
                })
            }),
    {
        let server_pos: Vector2 = server_state.position;
        let distance_squared: i128 = current_pos.distance_squared_to(server_pos);
        if distance_squared > (MAX_CORRECTION_DISTANCE as i128) * (MAX_CORRECTION_DISTANCE as i128) {
            self.vertical_diff_frame_count = 0;
            self.deadband_frame_count = 0;
            return server_pos;
        }
        let vertical_diff: i64 = server_pos.vertical_distance_to(current_pos);
        let vertical_condition: bool = is_on_floor && server_state.direction != 0
            && !server_state.is_jumping && vertical_diff > VERTICAL_DIFF_THRESHOLD;
        if vertical_condition {
            self.vertical_diff_frame_count = count_up(self.vertical_diff_frame_count);
            if self.vertical_diff_frame_count > VERTICAL_DIFF_FRAME_THRESHOLD {
                self.vertical_diff_frame_count = 0;
                return server_pos;
            }
            return current_pos;
        }
        self.vertical_diff_frame_count = 0;
        if distance_squared <= (CORRECTION_DEADBAND as i128) * (CORRECTION_DEADBAND as i128) {
            self.deadband_frame_count = 0;
            return current_pos;
        }
        self.deadband_frame_count = count_up(self.deadband_frame_count);
        if self.deadband_frame_count > DEADBAND_FRAME_THRESHOLD {
            return server_pos;
        }
        Vector2 {
            x: blend_one(current_pos.x, server_pos.x),
            y: blend_one(current_pos.y, server_pos.y),
        }
    }

    /// Whether a jump starts this tick: the reported jump flag has just
    /// risen.
    pub open spec fn jump_rises(self) -> bool {
        self.current_jumping && !self.was_jumping
    }

    /// The velocity the prediction gives the body this tick: gravity acts
    /// in the air, a jump starts where the reported flag has just risen on
    /// the floor, and the reported direction drives the horizontal part.
    pub open spec fn predicted_velocity(self, body: BodyState, delta_micros: u32) -> Vector2 {
        let fallen = Vector2 {
            x: body.velocity.x,
            y: if body.is_on_floor {
                body.velocity.y
            } else {
                fall(body.velocity.y, body.gravity.y, delta_micros)
            },
        };
        let jumped = self.basic_player.velocity_after_jump(
            fallen,
            body.platform_velocity,
            body.is_on_floor,
            self.jump_rises(),
        );
        Vector2 {
            x: self.basic_player_after_jump(body, delta_micros).horizontal_velocity(
                jumped,
                self.current_direction,
                body.is_on_floor,
                delta_micros,
            ),
            y: jumped.y,
        }
    }

    /// The movement model after the jump rule of this tick.
    pub open spec fn basic_player_after_jump(self, body: BodyState, delta_micros: u32) -> BasicPlayer {
        let fallen = Vector2 {
            x: body.velocity.x,
            y: if body.is_on_floor {
                body.velocity.y
            } else {
                fall(body.velocity.y, body.gravity.y, delta_micros)
            },
        };
        let jumped = self.basic_player.velocity_after_jump(
            fallen,
            body.platform_velocity,
            body.is_on_floor,
            self.jump_rises(),
        );
        BasicPlayer {
            velocity_in_jump: if BasicPlayer::jumps(body.is_on_floor, self.jump_rises()) {
                Some(jumped)
            } else {
                self.basic_player.velocity_in_jump
            },
            ..self.basic_player
        }
    }

    /// The movement model after this tick.
    pub open spec fn basic_player_after(self, body: BodyState, delta_micros: u32) -> BasicPlayer {
        let fallen = Vector2 {
            x: body.velocity.x,
            y: if body.is_on_floor {
                body.velocity.y
            } else {
                fall(body.velocity.y, body.gravity.y, delta_micros)
            },
        };
        let jumped = self.basic_player.velocity_after_jump(
            fallen,
            body.platform_velocity,
            body.is_on_floor,
            self.jump_rises(),
        );
        let after_jump = self.basic_player_after_jump(body, delta_micros);
        BasicPlayer {
            velocity_in_jump: after_jump.momentum_after(
                jumped,
                self.current_direction,
                body.is_on_floor,
                delta_micros,
            ),
            ..after_jump
        }
    }

    /// The correction of this tick: none before the first report.
    pub open spec fn correction(self, body: BodyState) -> Correction {
        match self.last_server_state {
            Some(server_state) => correct_position(
                body.position,
                server_state,
                body.is_on_floor,
                self.vertical_diff_frame_count,
                self.deadband_frame_count,
            ),
            None => Correction {
                position: body.position,
                vertical_diff_frame_count: self.vertical_diff_frame_count,
                deadband_frame_count: self.deadband_frame_count,
            },
        }
    }

    /// One tick of a remote avatar.
    ///
    /// Returns the position to put the body at, the velocity to move it
    /// with, and the sprite update.  Before the first report the position is
    /// the body's own.
    pub fn physics_process(&mut self, body: &BodyState, delta_micros: u32) -> (step: PhysicsStep)
        ensures
            step == (PhysicsStep {
                position: old(self).correction(*body).position,
                velocity: old(self).predicted_velocity(*body, delta_micros),
                sprite: player_animation(old(self).current_direction, body.is_on_floor),
            }),
            *final(self) == (RemotePlayerNode {
                basic_player: old(self).basic_player_after(*body, delta_micros),
                was_jumping: old(self).current_jumping,
                vertical_diff_frame_count: old(self).correction(*body).vertical_diff_frame_count,
                deadband_frame_count: old(self).correction(*body).deadband_frame_count,
                ..*old(self)
            }),
    {
        let mut velocity: Vector2 = body.velocity;
        let is_on_floor: bool = body.is_on_floor;
        if !is_on_floor {
            velocity.y = apply_gravity(velocity.y, body.gravity.y, delta_micros);
        }
        let new_jump: bool = self.current_jumping && !self.was_jumping;
        velocity = self.basic_player.handle_jump(
            velocity,
            body.platform_velocity,
            is_on_floor,
            new_jump,
        );
        self.was_jumping = self.current_jumping;
        self.basic_player.apply_horizontal_movement(
            &mut velocity,
            self.current_direction,
            is_on_floor,
            delta_micros,
        );
        let position: Vector2 = match self.last_server_state {
            Some(server_state) => self.apply_position_correction(
                body.position,
                &server_state,
                is_on_floor,
            ),
            None => body.position,
        };
        let sprite = self.basic_player.handle_animation(self.current_direction, is_on_floor);
        PhysicsStep { position, velocity, sprite }
    }
}

impl Default for RemotePlayerNode {
    fn default() -> (node: RemotePlayerNode)
        ensures
            node == RemotePlayerNode::initial(),
    {
        RemotePlayerNode::new()
    }
}

} // verus!
