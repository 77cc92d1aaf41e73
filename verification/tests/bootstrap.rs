use kik_pok::errors::RustLibError;
use kik_pok::identity::{Identity, Timestamp};
use kik_pok::multiplayer::bootstrap::{
    BootStep, WorldBootstrap, COIN_SCENE_PATH, LOCAL_PLAYER_SCENE_PATH,
};
use kik_pok::multiplayer::sync_time::{
    checked_diff_between_timestamps, get_diff_between_timestamps, get_world_scene,
};
use kik_pok::server::elements::{Coin, WorldScene};
use kik_pok::server::interaction::try_collect_coin;
use kik_pok::server::registration::{register_coin, register_player, register_scene};
use kik_pok::server::setup::init;
use kik_pok::server::store::{ReducerContext, World};
use kik_pok::vector::{DbVector2, Vector2};

fn scene_created_at(scene_id: u32, micros: i64) -> WorldScene {
    let mut scene = WorldScene::new(
        "Main".to_string(),
        DbVector2::new(-15_000, -35_000),
        Timestamp::from_micros_since_unix_epoch(micros),
    );
    scene.scene_id = scene_id;
    scene
}

#[test]
fn bootstrap_shows_the_player_then_the_coins_then_the_rest() {
    let mut ctx = ReducerContext::new(
        Identity::new(0, 1),
        Timestamp::from_micros_since_unix_epoch(0),
        World::new(),
    );
    assert_eq!(init(&mut ctx), Ok(()));
    assert_eq!(register_player(&mut ctx, "Ann".to_string(), 1), Ok(()));
    assert_eq!(try_collect_coin(&mut ctx, DbVector2::new(98_000, -25_000)), Ok(()));
    assert_eq!(register_scene(&mut ctx, "Cave".to_string(), DbVector2::new(0, 0)), Ok(()));
    assert_eq!(register_coin(&mut ctx, DbVector2::new(1, 1), 2), Ok(()));
    let steps = WorldBootstrap::new().boot_player(&ctx.db.scenes, &ctx.db.coins).unwrap();
    assert_eq!(steps.len(), 1 + 14 + 2);
    assert_eq!(steps[0], BootStep::SpawnLocalPlayer(Vector2::new(-15_000, -35_000)));
    assert_eq!(steps[1], BootStep::SpawnCoin(1, Vector2::new(80_000, -25_000)));
    // The coin that was collected, and the coin of the other scene, are not shown.
    assert_eq!(steps[2], BootStep::SpawnCoin(3, Vector2::new(178_000, -25_000)));
    assert_eq!(steps[14], BootStep::SpawnCoin(15, Vector2::new(834_000, 23_000)));
    assert_eq!(steps[15], BootStep::SyncPlatforms);
    assert_eq!(steps[16], BootStep::SyncEnemies);
}

#[test]
fn bootstrap_of_an_empty_scene_still_shows_the_player() {
    let scenes = vec![scene_created_at(1, 0)];
    let coins: Vec<Coin> = Vec::new();
    assert_eq!(
        WorldBootstrap::default().boot_player(&scenes, &coins).unwrap(),
        vec![
            BootStep::SpawnLocalPlayer(Vector2::new(-15_000, -35_000)),
            BootStep::SyncPlatforms,
            BootStep::SyncEnemies
        ]
    );
}

#[test]
fn bootstrap_without_the_main_scene_fails() {
    let scenes = vec![scene_created_at(2, 0)];
    let coins = vec![Coin {
        coin_id: 1,
        position: DbVector2::new(1, 1),
        scene_id: 1,
        collected_by: None,
    }];
    match WorldBootstrap::new().boot_player(&scenes, &coins) {
        Err(RustLibError::WorldSetup(what)) => assert_eq!(what, "No spawn position found"),
        other => panic!("unexpected result: {:?}", other),
    }
}

#[test]
fn bootstrap_names_its_scenes_and_nodes() {
    assert_eq!(COIN_SCENE_PATH, "res://scenes/entities/coin.tscn");
    assert_eq!(LOCAL_PLAYER_SCENE_PATH, "res://scenes/characters/local_player.tscn");
    assert_eq!(WorldBootstrap::setup_multiplayer(), "SELECT * FROM world_scene");
    assert_eq!(WorldBootstrap::numbered_node_name("Platform", 1), "Platform1");
    assert_eq!(WorldBootstrap::numbered_node_name("Enemy", 12), "Enemy12");
}

#[test]
fn the_scene_clock_is_the_time_since_its_creation() {
    let scene = scene_created_at(1, 1_000_000);
    let now = Timestamp::from_micros_since_unix_epoch(3_500_000);
    assert_eq!(get_diff_between_timestamps(&scene, now), 2_500_000);
    let earlier = Timestamp::from_micros_since_unix_epoch(400_000);
    assert_eq!(get_diff_between_timestamps(&scene, earlier), -600_000);
    assert_eq!(checked_diff_between_timestamps(&scene, now), Some(2_500_000));
}

#[test]
fn a_clock_that_does_not_fit_is_no_clock() {
    let scene = scene_created_at(1, i64::MIN);
    let now = Timestamp::from_micros_since_unix_epoch(0);
    assert_eq!(checked_diff_between_timestamps(&scene, now), None);
    let late = scene_created_at(1, 1);
    let long_ago = Timestamp::from_micros_since_unix_epoch(i64::MIN);
    assert_eq!(checked_diff_between_timestamps(&late, long_ago), None);
    let edge = scene_created_at(1, -1);
    let far = Timestamp::from_micros_since_unix_epoch(i64::MAX - 1);
    assert_eq!(checked_diff_between_timestamps(&edge, far), Some(i64::MAX));
}

#[test]
fn the_world_scene_is_the_main_scene() {
    let scenes = vec![scene_created_at(2, 5), scene_created_at(1, 7)];
    let scene = get_world_scene(&scenes).unwrap();
    assert_eq!(scene.scene_id, 1);
    assert_eq!(scene.creation_time.to_micros_since_unix_epoch(), 7);
    match get_world_scene(&vec![scene_created_at(2, 5)]) {
        Err(RustLibError::WorldSetup(what)) => assert_eq!(what, "No platforms found"),
        other => panic!("unexpected result: {:?}", other),
    }
}
