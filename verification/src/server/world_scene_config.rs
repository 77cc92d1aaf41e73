//! The scenes and coins the world starts with.

use crate::identity::Timestamp;
use crate::server::elements::{Coin, WorldScene, WorldSceneView};
use crate::server::store::{
    coin_ids, coin_index, coin_positions, find_scene_by_name, lemma_first_index,
    lemma_first_index_is, scene_ids, scene_index_by_name, scene_names, ReducerContext,
    ReducerError, Table, WorldView,
};
use crate::vector::DbVector2;
use itertools::Itertools;
use vstd::prelude::*;
use vstd::string::StringExecFns;

verus! {

/// Where a coin of the starting layout lies.
#[derive(Clone, Copy, Debug, PartialEq, Eq, Structural)]
pub struct CoinSetup {
    pub position: DbVector2,
}

/// A scene of the starting layout.
#[derive(Debug)]
pub struct WorldSceneConfig {
    pub name: String,
    pub spawn_point: DbVector2,
    pub coins: Vec<CoinSetup>,
}

/// A scene of the starting layout as the contracts see it.
pub struct WorldSceneConfigView {
    pub name: Seq<char>,
    pub spawn_point: DbVector2,
    pub coins: Seq<CoinSetup>,
}

impl View for WorldSceneConfig {
    type V = WorldSceneConfigView;

    open spec fn view(&self) -> WorldSceneConfigView {
        WorldSceneConfigView { name: self.name@, spawn_point: self.spawn_point, coins: self.coins@ }
    }
}

pub open spec fn config_rows(configs: Seq<WorldSceneConfig>) -> Seq<WorldSceneConfigView> {
    Seq::new(configs.len(), |i: int| configs[i]@)
}

/// The coordinates of the coins of a layout, in its order.
pub open spec fn setup_coordinates(coins: Seq<CoinSetup>) -> Seq<(i32, i32)> {
    Seq::new(coins.len(), |i: int| (coins[i].position.x, coins[i].position.y))
}

/// `items` without those that occurred before: of equal items the first
/// stays, and what stays keeps its order.
pub open spec fn first_occurrences<T>(items: Seq<T>) -> Seq<T>
    decreases items.len(),
{
    if items.len() == 0 {
        Seq::empty()
    } else {
        let before = first_occurrences(items.drop_last());
        if before.contains(items.last()) {
            before
        } else {
            before.push(items.last())
        }
    }
}

/// What [`first_occurrences`] keeps is distinct, and is exactly what
/// occurs in `items`.
pub proof fn lemma_first_occurrences<T>(items: Seq<T>)
    ensures
        first_occurrences(items).no_duplicates(),
        forall|item: T| #[trigger] first_occurrences(items).contains(item) <==> items.contains(item),
    decreases items.len(),
{
    if items.len() > 0 {
        let before = first_occurrences(items.drop_last());
        lemma_first_occurrences(items.drop_last());
        assert forall|item: T| #[trigger]
            first_occurrences(items).contains(item) <==> items.contains(item) by {
            if items.contains(item) {
                let at = choose|i: int| 0 <= i < items.len() && items[i] == item;
                if at < items.len() - 1 {
                    assert(items.drop_last()[at] == item);
                    assert(before.contains(item));
                    let kept_at = choose|i: int| 0 <= i < before.len() && before[i] == item;
                    assert(first_occurrences(items)[kept_at] == item);
                } else if !before.contains(item) {
                    assert(first_occurrences(items)[before.len() as int] == item);
                }
            }
            if first_occurrences(items).contains(item) {
                let kept_at = choose|i: int|
                    0 <= i < first_occurrences(items).len() && first_occurrences(items)[i] == item;
                if kept_at < before.len() {
                    assert(before[kept_at] == item);
                    assert(before.contains(item));
                    let at = choose|i: int|
                        0 <= i < items.drop_last().len() && items.drop_last()[i] == item;
                    assert(items[at] == item);
                } else {
                    assert(items[items.len() - 1] == item);
                }
            }
        }
    }
}

/// The store after one coin of the starting layout was inserted: it has a
/// new, uncollected coin, unless the table has no coin id left.
pub open spec fn insert_coin(db: WorldView, coordinates: (i32, i32), scene_id: u32) -> WorldView {
    if db.next_coin_id == u64::MAX {
        db
    } else {
        WorldView {
            coins: db.coins.push(
                Coin {
                    coin_id: db.next_coin_id,
                    position: position_at(coordinates),
                    scene_id,
                    collected_by: None,
                },
            ),
            next_coin_id: (db.next_coin_id + 1) as u64,
            ..db
        }
    }
}

/// The store after coins were inserted at each of `coordinates` in turn.
pub open spec fn insert_coins(db: WorldView, coordinates: Seq<(i32, i32)>, scene_id: u32) -> WorldView
    decreases coordinates.len(),
{
    if coordinates.len() == 0 {
        db
    } else {
        insert_coin(
            insert_coins(db, coordinates.drop_last(), scene_id),
            coordinates.last(),
            scene_id,
        )
    }
}

/// The store after a scene of the starting layout was set up: the scene is
/// inserted with a clock started at `timestamp`, and each distinct position
/// of the layout gets a coin that belongs to the first scene of that name.
pub open spec fn initialize_scene(
    db: WorldView,
    timestamp: Timestamp,
    config: WorldSceneConfigView,
) -> WorldView {
    let with_scene = WorldView {
        scenes: db.scenes.push(
            WorldSceneView {
                scene_id: db.next_scene_id,
                name: config.name,
                creation_time: timestamp,
                last_update_time: timestamp,
                spawn_point: config.spawn_point,
            },
        ),
        next_scene_id: (db.next_scene_id + 1) as u32,
        ..db
    };
    let owner = with_scene.scenes[scene_index_by_name(with_scene.scenes, config.name)->0];
    insert_coins(with_scene, first_occurrences(setup_coordinates(config.coins)), owner.scene_id)
}

/// The store after each of `configs` was set up in turn.
pub open spec fn initialize_scenes(
    db: WorldView,
    timestamp: Timestamp,
    configs: Seq<WorldSceneConfigView>,
) -> WorldView
    decreases configs.len(),
{
    if configs.len() == 0 {
        db
    } else {
        initialize_scene(
            initialize_scenes(db, timestamp, configs.drop_last()),
            timestamp,
            configs.last(),
        )
    }
}

/// A coin of a layout at `(x, y)`.
pub open spec fn coin_at(x: int, y: int) -> CoinSetup {
    CoinSetup { position: DbVector2 { x: x as i32, y: y as i32 } }
}

/// The coins of the main scene.
pub open spec fn main_scene_coins() -> Seq<CoinSetup> {
    seq![
        coin_at(80_000, -25_000),
        coin_at(98_000, -25_000),
        coin_at(178_000, -25_000),
        coin_at(178_000, -120_000),
        coin_at(498_000, -104_000),
        coin_at(530_000, -88_000),
        coin_at(690_000, -104_000),
        coin_at(626_000, -344_000),
        coin_at(642_000, -328_000),
        coin_at(674_000, -312_000),
        coin_at(834_000, -312_000),
        coin_at(882_000, -312_000),
        coin_at(754_000, -296_000),
        coin_at(784_000, -296_000),
        coin_at(834_000, 23_000),
    ]
}

/// The starting layout: the scene "Main", entered at (-15, -35), with its
/// fifteen coins.
pub open spec fn scene_configs() -> Seq<WorldSceneConfigView> {
    seq![
        WorldSceneConfigView {
            name: "Main"@,
            spawn_point: coin_at(-15_000, -35_000).position,
            coins: main_scene_coins(),
        },
    ]
}

/// Whether the starting layout can be set up: the table must have a scene
/// id for each of its scenes.
pub open spec fn initialize_all_scenes_outcome(db: WorldView) -> Result<(), ReducerError> {
    if db.next_scene_id + scene_configs().len() > u32::MAX {
        Err(ReducerError::InsertFailed(Table::WorldScene))
    } else {
        Ok(())
    }
}

/// Removes the repeated coordinates with `Itertools::unique`, which hands
/// out each item the first time it occurs and skips it from then on, in the
/// order of the input.
#[verifier::external_body]
fn unique_coordinates(coordinates: Vec<(i32, i32)>) -> (kept: Vec<(i32, i32)>)
    ensures
        kept@ == first_occurrences(coordinates@),
{
    coordinates.into_iter().unique().collect()
}

fn coin_setup(x: i32, y: i32) -> (setup: CoinSetup)
    ensures
        setup == coin_at(x as int, y as int),
{
    CoinSetup { position: DbVector2::new(x, y) }
}

impl WorldSceneConfig {
    /// The starting layout.
    pub fn scenes() -> (configs: Vec<WorldSceneConfig>)
        ensures
            config_rows(configs@) == scene_configs(),
    {
        let mut coins: Vec<CoinSetup> = Vec::new();
        coins.push(coin_setup(80_000, -25_000));
        coins.push(coin_setup(98_000, -25_000));
        coins.push(coin_setup(178_000, -25_000));
        coins.push(coin_setup(178_000, -120_000));
        coins.push(coin_setup(498_000, -104_000));
        coins.push(coin_setup(530_000, -88_000));
        coins.push(coin_setup(690_000, -104_000));
        coins.push(coin_setup(626_000, -344_000));
        coins.push(coin_setup(642_000, -328_000));
        coins.push(coin_setup(674_000, -312_000));
        coins.push(coin_setup(834_000, -312_000));
        coins.push(coin_setup(882_000, -312_000));
        coins.push(coin_setup(754_000, -296_000));
        coins.push(coin_setup(784_000, -296_000));
        coins.push(coin_setup(834_000, 23_000));
        assert(coins@ =~= main_scene_coins());
        let mut configs: Vec<WorldSceneConfig> = Vec::new();
        configs.push(
            WorldSceneConfig {
                name: String::from_str("Main"),
                spawn_point: DbVector2::new(-15_000, -35_000),
                coins,
            },
        );
        assert(config_rows(configs@) =~= scene_configs());
        configs
    }

    /// Inserts a coin at each distinct position of the layout, for the
    /// scene `scene_id`.  A coin the table cannot number is left out.
    fn initialize_coins(ctx: &mut ReducerContext, scene_config: &WorldSceneConfig, scene_id: u32)
        ensures
            final(ctx).db@ == insert_coins(
                old(ctx).db@,
                first_occurrences(setup_coordinates(scene_config@.coins)),
                scene_id,
            ),
            final(ctx).sender == old(ctx).sender,
            final(ctx).timestamp == old(ctx).timestamp,
    {
        let mut coordinates: Vec<(i32, i32)> = Vec::new();
        let mut i: usize = 0;
        while i < scene_config.coins.len()
            invariant
                i <= scene_config.coins@.len(),
                coordinates@ == setup_coordinates(scene_config.coins@).take(i as int),
            decreases scene_config.coins@.len() - i,
        {
            let position: DbVector2 = scene_config.coins[i].position;
            coordinates.push((position.x, position.y));
            assert(coordinates@ =~= setup_coordinates(scene_config.coins@).take(i + 1));
            i = i + 1;
        }
        assert(coordinates@ =~= setup_coordinates(scene_config.coins@));
        let kept: Vec<(i32, i32)> = unique_coordinates(coordinates);
        let mut k: usize = 0;
        assert(kept@.take(0) =~= Seq::empty());
        while k < kept.len()
            invariant
                k <= kept@.len(),
                ctx.db@ == insert_coins(old(ctx).db@, kept@.take(k as int), scene_id),
                ctx.sender == old(ctx).sender,
                ctx.timestamp == old(ctx).timestamp,
            decreases kept@.len() - k,
        {
            let at: (i32, i32) = kept[k];
            proof {
                assert(kept@.take(k + 1).drop_last() =~= kept@.take(k as int));
                assert(kept@.take(k + 1).last() == at);
            }
            if ctx.db.next_coin_id < u64::MAX {
                let coin = Coin {
                    coin_id: ctx.db.next_coin_id,
                    position: DbVector2::new(at.0, at.1),
                    scene_id,
                    collected_by: None,
                };
                ctx.db.coins.push(coin);
                ctx.db.next_coin_id = ctx.db.next_coin_id + 1;
            }
            k = k + 1;
        }
        assert(kept@.take(kept@.len() as int) =~= kept@);
    }

    /// Sets up one scene of a layout.
    ///
    /// The scene is inserted with its clock started at the time of the
    /// call, and each distinct position of its layout gets a coin; the
    /// coins belong to the first scene that has the name of the layout.
    /// The request is refused, and nothing changes, when the table has no
    /// scene id left.  The tables stay well formed as long as no coin lies
    /// at a position of the layout already.
    pub fn initialize_scene(ctx: &mut ReducerContext, scene_config: &WorldSceneConfig) -> (result:
        Result<(), ReducerError>)
        ensures
            result == if old(ctx).db.next_scene_id == u32::MAX {
                Err::<(), ReducerError>(ReducerError::InsertFailed(Table::WorldScene))
            } else {
                Ok::<(), ReducerError>(())
            },
            final(ctx).db@ == if result is Ok {
                initialize_scene(old(ctx).db@, old(ctx).timestamp, scene_config@)
            } else {
                old(ctx).db@
            },
            result is Ok ==> final(ctx).db.next_scene_id == old(ctx).db.next_scene_id + 1,
            final(ctx).sender == old(ctx).sender,
            final(ctx).timestamp == old(ctx).timestamp,
            old(ctx).db@.wf() && free_of_coins(old(ctx).db@, setup_coordinates(scene_config@.coins))
                ==> final(ctx).db@.wf(),
    {
        if ctx.db.next_scene_id == u32::MAX {
            return Err(ReducerError::InsertFailed(Table::WorldScene));
        }
        proof {
            if ctx.db@.wf() && free_of_coins(ctx.db@, setup_coordinates(scene_config@.coins)) {
                lemma_initialize_scene_keeps_wf(ctx.db@, ctx.timestamp, scene_config@);
            }
        }
        let now: Timestamp = ctx.timestamp;
        let ghost before = ctx.db@;
        let mut scene = WorldScene::new(scene_config.name.clone(), scene_config.spawn_point, now);
        scene.scene_id = ctx.db.next_scene_id;
        ctx.db.scenes.push(scene);
        ctx.db.next_scene_id = ctx.db.next_scene_id + 1;
        let ghost with_scene = ctx.db@;
        proof {
            assert(with_scene.scenes =~= before.scenes.push(
                WorldSceneView {
                    scene_id: before.next_scene_id,
                    name: scene_config@.name,
                    creation_time: now,
                    last_update_time: now,
                    spawn_point: scene_config@.spawn_point,
                },
            ));
            assert(with_scene.players =~= before.players);
            assert(with_scene.logged_out_players =~= before.logged_out_players);
            lemma_first_index(scene_names(with_scene.scenes), scene_config@.name, 0);
            assert(scene_names(with_scene.scenes)[with_scene.scenes.len() - 1]
                == scene_config@.name);
        }
        // The scene was just inserted, so a scene of its name is found.
        let owner_id: u32 = match find_scene_by_name(&ctx.db.scenes, &scene_config.name) {
            Some(owner_at) => ctx.db.scenes[owner_at].scene_id,
            None => ctx.db.next_scene_id,
        };
        Self::initialize_coins(ctx, scene_config, owner_id);
        proof {
            lemma_insert_coins_keeps_scenes(
                with_scene,
                first_occurrences(setup_coordinates(scene_config@.coins)),
                owner_id,
            );
        }
        Ok(())
    }

    /// Sets up the starting layout.
    ///
    /// Each scene of the layout is set up in turn.  The request is refused,
    /// and nothing changes, when the table lacks a scene id for one of the
    /// scenes.
    pub fn initialize_all_scenes(ctx: &mut ReducerContext) -> (result: Result<(), ReducerError>)
        ensures
            result == initialize_all_scenes_outcome(old(ctx).db@),
            final(ctx).db@ == if result is Ok {
                initialize_scenes(old(ctx).db@, old(ctx).timestamp, scene_configs())
            } else {
                old(ctx).db@
            },
            final(ctx).sender == old(ctx).sender,
            final(ctx).timestamp == old(ctx).timestamp,
    {
        let configs: Vec<WorldSceneConfig> = Self::scenes();
        let ghost layout = scene_configs();
        assert(layout.len() == 1);
        if configs.len() > (u32::MAX - ctx.db.next_scene_id) as usize {
            return Err(ReducerError::InsertFailed(Table::WorldScene));
        }
        let mut i: usize = 0;
        assert(layout.take(0) =~= Seq::empty());
        while i < configs.len()
            invariant
                i <= configs@.len(),
                config_rows(configs@) == layout,
                ctx.db@ == initialize_scenes(
                    old(ctx).db@,
                    old(ctx).timestamp,
                    layout.take(i as int),
                ),
                ctx.db.next_scene_id == old(ctx).db.next_scene_id + i,
                old(ctx).db.next_scene_id + configs@.len() <= u32::MAX,
                ctx.sender == old(ctx).sender,
                ctx.timestamp == old(ctx).timestamp,
            decreases configs@.len() - i,
        {
            proof {
                assert(layout.take(i + 1).drop_last() =~= layout.take(i as int));
                assert(layout.take(i + 1).last() == configs@[i as int]@);
            }
            let _ = Self::initialize_scene(ctx, &configs[i]);
            i = i + 1;
        }
        assert(layout.take(layout.len() as int) =~= layout);
        Ok(())
    }
}

/// Inserting coins changes the coin table and the next coin id only.
pub proof fn lemma_insert_coins_keeps_scenes(
    db: WorldView,
    coordinates: Seq<(i32, i32)>,
    scene_id: u32,
)
    ensures
        insert_coins(db, coordinates, scene_id) == (WorldView {
            coins: insert_coins(db, coordinates, scene_id).coins,
            next_coin_id: insert_coins(db, coordinates, scene_id).next_coin_id,
            ..db
        }),
    decreases coordinates.len(),
{
    if coordinates.len() > 0 {
        lemma_insert_coins_keeps_scenes(db, coordinates.drop_last(), scene_id);
    }
}

/// The position that coordinates stand for.
pub open spec fn position_at(coordinates: (i32, i32)) -> DbVector2 {
    DbVector2 { x: coordinates.0, y: coordinates.1 }
}

/// Whether no coin of the store lies at any of the coordinates.
pub open spec fn free_of_coins(db: WorldView, coordinates: Seq<(i32, i32)>) -> bool {
    forall|at: int|
        0 <= at < coordinates.len() ==> coin_index(db.coins, position_at(#[trigger] coordinates[at]))
            is None
}

/// Inserting coins at distinct coordinates where no coin lies keeps the
/// tables well formed.  Every coin of the store afterwards is one it had
/// before or lies at one of the coordinates.
pub proof fn lemma_insert_coins_keeps_wf(db: WorldView, coordinates: Seq<(i32, i32)>, scene_id: u32)
    requires
        db.wf(),
        coordinates.no_duplicates(),
        free_of_coins(db, coordinates),
    ensures
        insert_coins(db, coordinates, scene_id).wf(),
        insert_coins(db, coordinates, scene_id).coins.len() >= db.coins.len(),
        forall|j: int|
            0 <= j < insert_coins(db, coordinates, scene_id).coins.len() ==> (j < db.coins.len()
                && #[trigger] insert_coins(db, coordinates, scene_id).coins[j] == db.coins[j])
                || (exists|at: int|
                0 <= at < coordinates.len() && insert_coins(
                    db,
                    coordinates,
                    scene_id,
                ).coins[j].position == position_at(coordinates[at])),
    decreases coordinates.len(),
{
    if coordinates.len() > 0 {
        let shorter = coordinates.drop_last();
        let last = coordinates.last();
        assert forall|at: int| 0 <= at < shorter.len() implies coin_index(
            db.coins,
            position_at(#[trigger] shorter[at]),
        ) is None by {
            assert(shorter[at] == coordinates[at]);
        }
        assert forall|a: int, b: int|
            0 <= a < shorter.len() && 0 <= b < shorter.len() && a != b implies shorter[a]
            != shorter[b] by {
            assert(coordinates[a] != coordinates[b]);
        }
        lemma_insert_coins_keeps_wf(db, shorter, scene_id);
        lemma_insert_coins_keeps_scenes(db, shorter, scene_id);
        let before = insert_coins(db, shorter, scene_id);
        let after = insert_coins(db, coordinates, scene_id);
        assert(after == insert_coin(before, last, scene_id));
        assert forall|j: int| 0 <= j < after.coins.len() implies (j < db.coins.len()
            && #[trigger] after.coins[j] == db.coins[j]) || (exists|at: int|
            0 <= at < coordinates.len() && after.coins[j].position == position_at(
                coordinates[at],
            )) by {
            if j < before.coins.len() {
                assert(after.coins[j] == before.coins[j]);
                if !(j < db.coins.len() && before.coins[j] == db.coins[j]) {
                    let at = choose|at: int|
                        0 <= at < shorter.len() && before.coins[j].position == position_at(
                            shorter[at],
                        );
                    assert(coordinates[at] == shorter[at]);
                }
            } else {
                assert(after.coins[j].position == position_at(coordinates[coordinates.len() - 1]));
            }
        }
        if before.next_coin_id < u64::MAX {
            // No coin lies where the last one goes.
            assert forall|j: int| 0 <= j < before.coins.len() implies #[trigger] coin_positions(
                before.coins,
            )[j] != position_at(last) by {
                if j < db.coins.len() && before.coins[j] == db.coins[j] {
                    lemma_first_index(coin_positions(db.coins), position_at(last), 0);
                    assert(coordinates[coordinates.len() - 1] == last);
                    assert(coin_positions(db.coins)[j] != position_at(last));
                } else {
                    let at = choose|at: int|
                        0 <= at < shorter.len() && before.coins[j].position == position_at(
                            shorter[at],
                        );
                    assert(coordinates[at] != coordinates[coordinates.len() - 1]);
                }
            }
            assert(coin_positions(after.coins) =~= coin_positions(before.coins).push(
                position_at(last),
            ));
            assert forall|i: int, j: int|
                0 <= i < after.coins.len() && 0 <= j < after.coins.len() && i
                    != j implies coin_positions(after.coins)[i] != coin_positions(after.coins)[j] by {
                if i < before.coins.len() && j < before.coins.len() {
                    assert(coin_positions(before.coins)[i] != coin_positions(before.coins)[j]);
                } else if i < before.coins.len() {
                    assert(coin_positions(before.coins)[i] != position_at(last));
                } else {
                    assert(coin_positions(before.coins)[j] != position_at(last));
                }
            }
            assert forall|i: int, j: int|
                0 <= i < after.coins.len() && 0 <= j < after.coins.len() && i != j implies coin_ids(
                after.coins,
            )[i] != coin_ids(after.coins)[j] by {
                if i < before.coins.len() {
                    assert(before.coins[i].coin_id < before.next_coin_id);
                    assert(coin_ids(before.coins)[i] == before.coins[i].coin_id);
                }
                if j < before.coins.len() {
                    assert(before.coins[j].coin_id < before.next_coin_id);
                    assert(coin_ids(before.coins)[j] == before.coins[j].coin_id);
                }
            }
            assert forall|i: int|
                0 <= i < after.coins.len() implies (#[trigger] after.coins[i]).coin_id
                < after.next_coin_id by {
                if i < before.coins.len() {
                    assert(before.coins[i].coin_id < before.next_coin_id);
                }
            }
        }
    }
}

/// Setting up a scene keeps the tables well formed when no coin lies at a
/// position of its layout.
pub proof fn lemma_initialize_scene_keeps_wf(
    db: WorldView,
    timestamp: Timestamp,
    config: WorldSceneConfigView,
)
    requires
        db.wf(),
        db.next_scene_id < u32::MAX,
        free_of_coins(db, setup_coordinates(config.coins)),
    ensures
        initialize_scene(db, timestamp, config).wf(),
{
    let scene = WorldSceneView {
        scene_id: db.next_scene_id,
        name: config.name,
        creation_time: timestamp,
        last_update_time: timestamp,
        spawn_point: config.spawn_point,
    };
    let with_scene = WorldView {
        scenes: db.scenes.push(scene),
        next_scene_id: (db.next_scene_id + 1) as u32,
        ..db
    };
    assert(scene_ids(with_scene.scenes) =~= scene_ids(db.scenes).push(db.next_scene_id));
    assert forall|i: int, j: int|
        0 <= i < with_scene.scenes.len() && 0 <= j < with_scene.scenes.len() && i
            != j implies scene_ids(with_scene.scenes)[i] != scene_ids(with_scene.scenes)[j] by {
        if i < db.scenes.len() {
            assert(db.scenes[i].scene_id < db.next_scene_id);
            assert(scene_ids(db.scenes)[i] == db.scenes[i].scene_id);
        }
        if j < db.scenes.len() {
            assert(db.scenes[j].scene_id < db.next_scene_id);
            assert(scene_ids(db.scenes)[j] == db.scenes[j].scene_id);
        }
    }
    assert forall|i: int|
        0 <= i < with_scene.scenes.len() implies (#[trigger] with_scene.scenes[i]).scene_id
        < with_scene.next_scene_id by {
        if i < db.scenes.len() {
            assert(db.scenes[i].scene_id < db.next_scene_id);
        }
    }
    assert(with_scene.wf());
    let coordinates = setup_coordinates(config.coins);
    let kept = first_occurrences(coordinates);
    lemma_first_occurrences(coordinates);
    assert forall|at: int| 0 <= at < kept.len() implies coin_index(
        with_scene.coins,
        position_at(#[trigger] kept[at]),
    ) is None by {
        assert(kept.contains(kept[at]));
        assert(coordinates.contains(kept[at]));
        let from = choose|i: int| 0 <= i < coordinates.len() && coordinates[i] == kept[at];
        assert(coin_index(db.coins, position_at(coordinates[from])) is None);
    }
    let owner = with_scene.scenes[scene_index_by_name(with_scene.scenes, config.name)->0];
    lemma_insert_coins_keeps_wf(with_scene, kept, owner.scene_id);
}

/// Of distinct items every one is its first occurrence.
pub proof fn lemma_first_occurrences_of_distinct<T>(items: Seq<T>)
    requires
        items.no_duplicates(),
    ensures
        first_occurrences(items) == items,
    decreases items.len(),
{
    if items.len() > 0 {
        let shorter = items.drop_last();
        assert forall|i: int, j: int|
            0 <= i < shorter.len() && 0 <= j < shorter.len() && i != j implies shorter[i]
            != shorter[j] by {
            assert(items[i] != items[j]);
        }
        lemma_first_occurrences_of_distinct(shorter);
        if shorter.contains(items.last()) {
            let at = choose|i: int| 0 <= i < shorter.len() && shorter[i] == items.last();
            assert(items[at] == items[items.len() - 1]);
        }
        assert(shorter.push(items.last()) =~= items);
    } else {
        assert(first_occurrences(items) =~= items);
    }
}

/// The coin that is inserted for the `at`-th of `coordinates` when the
/// table has ids left for all of them.
pub open spec fn inserted_coin(
    db: WorldView,
    coordinates: Seq<(i32, i32)>,
    scene_id: u32,
    at: int,
) -> Coin {
    Coin {
        coin_id: (db.next_coin_id + at) as u64,
        position: position_at(coordinates[at]),
        scene_id,
        collected_by: None,
    }
}

/// While the table has ids left, inserting coins appends one coin for each
/// of the coordinates, numbered from the next coin id on.
pub proof fn lemma_insert_coins_appends(db: WorldView, coordinates: Seq<(i32, i32)>, scene_id: u32)
    requires
        db.next_coin_id + coordinates.len() <= u64::MAX,
    ensures
        insert_coins(db, coordinates, scene_id) == (WorldView {
            coins: db.coins + Seq::new(
                coordinates.len(),
                |at: int| inserted_coin(db, coordinates, scene_id, at),
            ),
            next_coin_id: (db.next_coin_id + coordinates.len()) as u64,
            ..db
        }),
    decreases coordinates.len(),
{
    let appended = Seq::new(
        coordinates.len(),
        |at: int| inserted_coin(db, coordinates, scene_id, at),
    );
    if coordinates.len() > 0 {
        let shorter = coordinates.drop_last();
        lemma_insert_coins_appends(db, shorter, scene_id);
        let appended_before = Seq::new(
            shorter.len(),
            |at: int| inserted_coin(db, shorter, scene_id, at),
        );
        assert((db.coins + appended_before).push(
            inserted_coin(db, coordinates, scene_id, coordinates.len() - 1),
        ) =~= db.coins + appended);
    } else {
        assert(db.coins + appended =~= db.coins);
    }
}

/// The store that the starting layout makes of an empty one: it is well
/// formed; its only scene is "Main", with id 1, entered at (-15, -35), its
/// clock started at `timestamp`; and its coins are the fifteen of the
/// layout, in the layout's order, numbered from 1, none of them collected.
pub proof fn lemma_starting_layout(timestamp: Timestamp)
    ensures
        ({
            let world = initialize_scenes(WorldView::empty(), timestamp, scene_configs());
            &&& world.wf()
            &&& world.scenes == seq![
                WorldSceneView {
                    scene_id: 1,
                    name: "Main"@,
                    creation_time: timestamp,
                    last_update_time: timestamp,
                    spawn_point: coin_at(-15_000, -35_000).position,
                },
            ]
            &&& world.coins.len() == 15
            &&& forall|at: int|
                0 <= at < 15 ==> #[trigger] world.coins[at] == (Coin {
                    coin_id: (at + 1) as u64,
                    position: main_scene_coins()[at].position,
                    scene_id: 1,
                    collected_by: None,
                })
            &&& world.players.len() == 0
            &&& world.logged_out_players.len() == 0
            &&& world.scores.len() == 0
        }),
{
    let empty = WorldView::empty();
    let layout = scene_configs();
    let config = layout[0];
    assert(layout.drop_last() =~= Seq::empty());
    assert(initialize_scenes(empty, timestamp, layout.drop_last()) == empty);
    let scene = WorldSceneView {
        scene_id: 1,
        name: config.name,
        creation_time: timestamp,
        last_update_time: timestamp,
        spawn_point: config.spawn_point,
    };
    let with_scene = WorldView { scenes: empty.scenes.push(scene), next_scene_id: 2, ..empty };
    assert(with_scene.scenes =~= seq![scene]);
    lemma_first_index_is(scene_names(with_scene.scenes), config.name, 0, 0);
    let coordinates = setup_coordinates(config.coins);
    assert(coordinates.len() == 15);
    assert(coordinates.no_duplicates());
    lemma_first_occurrences_of_distinct(coordinates);
    lemma_insert_coins_appends(with_scene, coordinates, 1);
    let world = initialize_scenes(empty, timestamp, layout);
    assert(world == insert_coins(with_scene, coordinates, 1));
    assert(world.coins.len() == 15);
    assert forall|at: int| 0 <= at < 15 implies #[trigger] world.coins[at] == (Coin {
        coin_id: (at + 1) as u64,
        position: main_scene_coins()[at].position,
        scene_id: 1,
        collected_by: None,
    }) by {
        assert(world.coins[at] == inserted_coin(with_scene, coordinates, 1, at));
    }
    assert forall|i: int, j: int|
        0 <= i < 15 && 0 <= j < 15 && i != j implies coin_positions(world.coins)[i]
        != coin_positions(world.coins)[j] by {
        assert(coordinates[i] != coordinates[j]);
    }
    assert forall|i: int, j: int| 0 <= i < 15 && 0 <= j < 15 && i != j implies coin_ids(
        world.coins,
    )[i] != coin_ids(world.coins)[j] by {
        assert(world.coins[i].coin_id == i + 1);
        assert(world.coins[j].coin_id == j + 1);
    }
    assert(scene_ids(world.scenes) =~= seq![1u32]);
}

} // verus!
