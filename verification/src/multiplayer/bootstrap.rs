//! Populating the scene of a client that has just logged in.
//!
//! Bootstrap runs once per session, after login and before the first
//! frame.  It works from a snapshot of the store and lists what is to be
//! shown, in the order in which it is to be shown: the local avatar first,
//! then the coins nobody has collected, then the platforms and the enemies,
//! whose animations are set by the scene's clock.  Running it twice shows
//! everything twice.

use crate::errors::RustLibError;
use crate::server::elements::{Coin, WorldScene};
use crate::server::setup::MAIN_SCENE_ID;
use crate::server::store::{find_scene, scene_index, scene_rows};
use crate::text::{decimal, to_decimal};
use crate::vector::Vector2;
use vstd::prelude::*;
use vstd::string::StringExecFns;

verus! {

pub const COIN_SCENE_PATH: &'static str = "res://scenes/entities/coin.tscn";

pub const LOCAL_PLAYER_SCENE_PATH: &'static str = "res://scenes/characters/local_player.tscn";

/// One thing bootstrap asks the engine for.
#[derive(Clone, Copy, Debug, PartialEq, Eq, Structural)]
pub enum BootStep {
    /// Show the local avatar at this position.
    SpawnLocalPlayer(Vector2),
    /// Show the coin with this id at this position.
    SpawnCoin(u64, Vector2),
    /// Set the animation of every platform by the scene's clock.
    SyncPlatforms,
    /// Set the animation of every enemy by the scene's clock.
    SyncEnemies,
}

/// Whether bootstrap shows the coin: it lies in the main scene and nobody
/// has collected it.
pub open spec fn shown_at_boot(coin: Coin) -> bool {
    coin.scene_id == MAIN_SCENE_ID && coin.collected_by is None
}

/// The steps that show the coins of `coins` that bootstrap shows, in order.
pub open spec fn coin_steps(coins: Seq<Coin>) -> Seq<BootStep>
    decreases coins.len(),
{
    if coins.len() == 0 {
        Seq::empty()
    } else {
        let before = coin_steps(coins.drop_last());
        if shown_at_boot(coins.last()) {
            before.push(
                BootStep::SpawnCoin(
                    coins.last().coin_id,
                    Vector2 { x: coins.last().position.x, y: coins.last().position.y },
                ),
            )
        } else {
            before
        }
    }
}

/// The steps of bootstrap for a main scene with spawn point `spawn_point`.
pub open spec fn boot_steps(spawn_point: Vector2, coins: Seq<Coin>) -> Seq<BootStep> {
    seq![BootStep::SpawnLocalPlayer(spawn_point)] + coin_steps(coins) + seq![
        BootStep::SyncPlatforms,
        BootStep::SyncEnemies,
    ]
}

/// Plans the bootstrap of a session.
#[derive(Debug)]
pub struct WorldBootstrap {}

impl WorldBootstrap {
    pub fn new() -> WorldBootstrap {
        WorldBootstrap {  }
    }

    /// The query for the table bootstrap reads the scene from.
    pub fn setup_multiplayer() -> (query: String)
        ensures
            query@ == "SELECT * FROM world_scene"@,
    {
        String::from_str("SELECT * FROM world_scene")
    }

    /// The steps of bootstrap, from the scenes and coins that the store
    /// reports.  Fails, with nothing to show, when the main scene is not
    /// among the scenes.
    pub fn boot_player(&self, scenes: &Vec<WorldScene>, coins: &Vec<Coin>) -> (result: Result<
        Vec<BootStep>,
        RustLibError,
    >)
        ensures
            match result {
                Ok(steps) => {
                    &&& scene_index(scene_rows(scenes@), MAIN_SCENE_ID) is Some
                    &&& steps@ == boot_steps(
                        Vector2 {
                            x: scenes@[scene_index(
                                scene_rows(scenes@),
                                MAIN_SCENE_ID,
                            )->0].spawn_point.x,
                            y: scenes@[scene_index(
                                scene_rows(scenes@),
                                MAIN_SCENE_ID,
                            )->0].spawn_point.y,
                        },
                        coins@,
                    )
                },
                Err(error) => scene_index(scene_rows(scenes@), MAIN_SCENE_ID) is None && (error
                    matches RustLibError::WorldSetup(what) && what@
                    == "No spawn position found"@),
            },
    {
        let spawn_position: Vector2 = match find_scene(scenes, MAIN_SCENE_ID) {
            Some(scene_at) => Vector2::from(scenes[scene_at].spawn_point),
            None => {
                return Err(RustLibError::WorldSetup(String::from_str("No spawn position found")));
            },
        };
        let mut steps: Vec<BootStep> = Vec::new();
        steps.push(BootStep::SpawnLocalPlayer(spawn_position));
        let mut i: usize = 0;
        assert(coins@.take(0) =~= Seq::empty());
        assert(steps@ =~= seq![BootStep::SpawnLocalPlayer(spawn_position)] + coin_steps(
            coins@.take(0),
        ));
        while i < coins.len()
            invariant
                i <= coins@.len(),
                steps@ == seq![BootStep::SpawnLocalPlayer(spawn_position)] + coin_steps(
                    coins@.take(i as int),
                ),
            decreases coins@.len() - i,
        {
            let coin: Coin = coins[i];
            let ghost before = steps@;
            proof {
                assert(coins@.take(i + 1).drop_last() =~= coins@.take(i as int));
                assert(coins@.take(i + 1).last() == coin);
            }
            if coin.scene_id == MAIN_SCENE_ID && coin.collected_by.is_none() {
                steps.push(BootStep::SpawnCoin(coin.coin_id, Vector2::from(coin.position)));
            }
            assert(steps@ =~= seq![BootStep::SpawnLocalPlayer(spawn_position)] + coin_steps(
                coins@.take(i + 1),
            ));
            i = i + 1;
        }
        assert(coins@.take(coins@.len() as int) =~= coins@);
        steps.push(BootStep::SyncPlatforms);
        steps.push(BootStep::SyncEnemies);
        assert(steps@ =~= boot_steps(spawn_position, coins@));
        Ok(steps)
    }

    /// The name of the `index`-th node of a group whose nodes are named by
    /// a prefix and their number, such as `Platform3`.
    pub fn numbered_node_name(prefix: &str, index: u64) -> (name: String)
        ensures
            name@ == prefix@ + decimal(index as nat),
    {
        let number: String = to_decimal(index);
        String::from_str(prefix).concat(number.as_str())
    }
}

impl Default for WorldBootstrap {
    fn default() -> WorldBootstrap {
        WorldBootstrap::new()
    }
}

} // verus!
