//! The rows of the world store.

use crate::identity::{Identity, Timestamp};
use crate::vector::DbVector2;
use vstd::prelude::*;

verus! {

/// What a player's client last reported about its avatar.
#[derive(Clone, Copy, Debug, PartialEq, Eq, Structural)]
pub struct DBPlayerState {
    pub position: DbVector2,
    /// Sign of the horizontal input: -1, 0 or 1.
    pub direction: i32,
    pub is_jumping: bool,
}

impl DBPlayerState {
    /// A resting avatar at `position`.
    pub fn with_position(position: DbVector2) -> (state: DBPlayerState)
        ensures
            state == (DBPlayerState { position, direction: 0, is_jumping: false }),
    {
        DBPlayerState { position, direction: 0, is_jumping: false }
    }
}

impl Default for DBPlayerState {
    fn default() -> (state: DBPlayerState)
        ensures
            state == (DBPlayerState {
                position: DbVector2 { x: 0, y: 0 },
                direction: 0,
                is_jumping: false,
            }),
    {
        DBPlayerState { position: DbVector2 { x: 0, y: 0 }, direction: 0, is_jumping: false }
    }
}

/// A registered player.  `identity` is the key of the table; `player_id` is
/// assigned by the store when the row is inserted.
#[derive(Debug)]
pub struct DbPlayer {
    pub identity: Identity,
    pub player_id: u32,
    pub name: String,
    pub state: DBPlayerState,
}

/// A player row as the contracts see it: the name is its characters.
pub struct DbPlayerView {
    pub identity: Identity,
    pub player_id: u32,
    pub name: Seq<char>,
    pub state: DBPlayerState,
}

impl View for DbPlayer {
    type V = DbPlayerView;

    open spec fn view(&self) -> DbPlayerView {
        DbPlayerView {
            identity: self.identity,
            player_id: self.player_id,
            name: self.name@,
            state: self.state,
        }
    }
}

/// A coin of a scene.  It stays in the table after it has been collected;
/// `collected_by` then names the collector.
#[derive(Clone, Copy, Debug, PartialEq, Eq, Structural)]
pub struct Coin {
    pub coin_id: u64,
    pub position: DbVector2,
    pub scene_id: u32,
    pub collected_by: Option<Identity>,
}

/// How many coins a player has collected.
#[derive(Clone, Copy, Debug, PartialEq, Eq, Structural)]
pub struct PlayerScore {
    pub score_id: u64,
    pub player_identity: Identity,
    pub coins_collected: u32,
    pub scene_id: u32,
}

impl PlayerScore {
    /// A score of zero coins; the store assigns `score_id` on insert.
    pub fn new(player_identity: Identity, scene_id: u32) -> (score: PlayerScore)
        ensures
            score == (PlayerScore { score_id: 0, player_identity, coins_collected: 0, scene_id }),
    {
        PlayerScore { score_id: 0, player_identity, coins_collected: 0, scene_id }
    }

    /// The counter after one more coin.  It stops at the largest value the
    /// column can hold.
    pub open spec fn coins_after_add(coins_collected: u32) -> u32 {
        if coins_collected < u32::MAX {
            (coins_collected + 1) as u32
        } else {
            coins_collected
        }
    }

    /// Counts one more coin.
    pub fn add_coin(&mut self)
        ensures
            *final(self) == (PlayerScore {
                coins_collected: Self::coins_after_add(old(self).coins_collected),
                ..*old(self)
            }),
    {
        if self.coins_collected < u32::MAX {
            self.coins_collected = self.coins_collected + 1;
        }
    }
}

/// A scene of the world.  `creation_time` is the epoch from which the
/// scene's platforms and enemies are animated.
#[derive(Debug)]
pub struct WorldScene {
    pub scene_id: u32,
    pub name: String,
    pub creation_time: Timestamp,
    pub last_update_time: Timestamp,
    pub spawn_point: DbVector2,
}

/// A scene row as the contracts see it: the name is its characters.
pub struct WorldSceneView {
    pub scene_id: u32,
    pub name: Seq<char>,
    pub creation_time: Timestamp,
    pub last_update_time: Timestamp,
    pub spawn_point: DbVector2,
}

impl View for WorldScene {
    type V = WorldSceneView;

    open spec fn view(&self) -> WorldSceneView {
        WorldSceneView {
            scene_id: self.scene_id,
            name: self.name@,
            creation_time: self.creation_time,
            last_update_time: self.last_update_time,
            spawn_point: self.spawn_point,
        }
    }
}

impl WorldScene {
    /// A scene created at `creation_time`; the store assigns `scene_id` on
    /// insert.
    pub fn new(name: String, spawn_point: DbVector2, creation_time: Timestamp) -> (scene:
        WorldScene)
        ensures
            scene@ == (WorldSceneView {
                scene_id: 0,
                name: name@,
                creation_time,
                last_update_time: creation_time,
                spawn_point,
            }),
    {
        WorldScene {
            scene_id: 0,
            name,
            creation_time,
            last_update_time: creation_time,
            spawn_point,
        }
    }

    /// Restarts the scene's clock at `creation_time`.
    pub fn set_creation_time(&mut self, creation_time: Timestamp)
        ensures
            final(self)@ == (WorldSceneView {
                creation_time,
                last_update_time: creation_time,
                ..old(self)@
            }),
    {
        self.creation_time = creation_time;
        self.last_update_time = creation_time;
    }
}

/// A moving platform of a scene.
#[derive(Clone, Copy, Debug, PartialEq, Eq, Structural)]
pub struct Platform {
    pub platform_id: u64,
    pub position: DbVector2,
    pub scene_id: u32,
}

impl Platform {
    pub fn new(position: DbVector2, scene_id: u32) -> (platform: Platform)
        ensures
            platform == (Platform { platform_id: 0, position, scene_id }),
    {
        Platform { platform_id: 0, position, scene_id }
    }
}

/// An enemy of a scene.
#[derive(Clone, Copy, Debug, PartialEq, Eq, Structural)]
pub struct GreenSlime {
    pub green_slime_id: u64,
    pub position: DbVector2,
    pub scene_id: u32,
}

impl GreenSlime {
    pub fn new(position: DbVector2, scene_id: u32) -> (slime: GreenSlime)
        ensures
            slime == (GreenSlime { green_slime_id: 0, position, scene_id }),
    {
        GreenSlime { green_slime_id: 0, position, scene_id }
    }
}

} // verus!
