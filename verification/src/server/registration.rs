//! Reducers that add rows: scenes, players and coins.

use crate::identity::{Identity, Timestamp};
use crate::server::elements::{
    Coin, DBPlayerState, DbPlayer, DbPlayerView, WorldScene, WorldSceneView,
};
use crate::server::store::{
    coin_ids, coin_index, coin_positions, find_coin, find_player, find_scene, lemma_first_index,
    lemma_push_fresh_key, player_identities, player_ids, player_index, scene_ids, scene_index,
    NameFault, ReducerContext, ReducerError, Table, WorldView,
};
use crate::text::{trim, trimmed};
use crate::vector::DbVector2;
use vstd::prelude::*;
use vstd::string::{StrSliceExecFns, StringExecFns};
use vstd::utf8::encode_utf8;

verus! {

/// Most characters a player name may keep after trimming.
pub const MAX_PLAYER_NAME_CHARS: usize = 20;

/// Most bytes a scene name may have as it is sent.
pub const MAX_SCENE_NAME_BYTES: usize = 50;

/// What is wrong with a player name, if anything: it is judged by what is
/// left of it after trimming, which must be 1 to 20 characters.
pub open spec fn player_name_fault(name: Seq<char>) -> Option<NameFault> {
    let kept = trimmed(name);
    if kept.len() == 0 {
        Some(NameFault::Empty)
    } else if kept.len() > MAX_PLAYER_NAME_CHARS {
        Some(NameFault::TooLong)
    } else {
        None
    }
}

/// What is wrong with a scene name, if anything: it must keep something
/// after trimming, and as sent its UTF-8 form may take 50 bytes at most.
pub open spec fn scene_name_fault(name: Seq<char>) -> Option<NameFault> {
    if trimmed(name).len() == 0 {
        Some(NameFault::Empty)
    } else if encode_utf8(name).len() as usize > MAX_SCENE_NAME_BYTES {
        Some(NameFault::TooLong)
    } else {
        None
    }
}

/// Whether registering a scene succeeds, and if not, why.
pub open spec fn register_scene_outcome(db: WorldView, scene_name: Seq<char>) -> Result<
    (),
    ReducerError,
> {
    if scene_name_fault(scene_name) is Some {
        Err(ReducerError::InvalidSceneName(scene_name_fault(scene_name)->0))
    } else if db.next_scene_id == u32::MAX {
        Err(ReducerError::InsertFailed(Table::WorldScene))
    } else {
        Ok(())
    }
}

/// The store after a scene was registered: it has one more scene, named by
/// the trimmed name, with the next scene id and a clock started now.
pub open spec fn register_scene_effect(
    db: WorldView,
    timestamp: Timestamp,
    scene_name: Seq<char>,
    spawn_point: DbVector2,
) -> WorldView {
    WorldView {
        scenes: db.scenes.push(
            WorldSceneView {
                scene_id: db.next_scene_id,
                name: trimmed(scene_name),
                creation_time: timestamp,
                last_update_time: timestamp,
                spawn_point,
            },
        ),
        next_scene_id: (db.next_scene_id + 1) as u32,
        ..db
    }
}

/// Registering a scene keeps the tables well formed.
pub proof fn lemma_register_scene_keeps_wf(
    db: WorldView,
    timestamp: Timestamp,
    scene_name: Seq<char>,
    spawn_point: DbVector2,
)
    requires
        db.wf(),
        db.next_scene_id < u32::MAX,
    ensures
        register_scene_effect(db, timestamp, scene_name, spawn_point).wf(),
{
    let after = register_scene_effect(db, timestamp, scene_name, spawn_point);
    assert(scene_ids(after.scenes) =~= scene_ids(db.scenes).push(db.next_scene_id));
    assert forall|i: int, j: int|
        0 <= i < after.scenes.len() && 0 <= j < after.scenes.len() && i != j implies scene_ids(
        after.scenes,
    )[i] != scene_ids(after.scenes)[j] by {
        if i < db.scenes.len() {
            assert(db.scenes[i].scene_id < db.next_scene_id);
            assert(scene_ids(db.scenes)[i] == db.scenes[i].scene_id);
        }
        if j < db.scenes.len() {
            assert(db.scenes[j].scene_id < db.next_scene_id);
            assert(scene_ids(db.scenes)[j] == db.scenes[j].scene_id);
        }
    }
    assert forall|i: int| 0 <= i < after.scenes.len() implies (#[trigger] after.scenes[i]).scene_id
        < after.next_scene_id by {
        if i < db.scenes.len() {
            assert(db.scenes[i].scene_id < db.next_scene_id);
        }
    }
}

/// Adds a scene to the world.
///
/// The name is stored trimmed.  The request is refused, and nothing changes,
/// when the name is empty after trimming, when it is longer than 50 bytes,
/// or when the table has no scene id left.
pub fn register_scene(ctx: &mut ReducerContext, scene_name: String, spawn_point: DbVector2) -> (result:
    Result<(), ReducerError>)
    ensures
        result == register_scene_outcome(old(ctx).db@, scene_name@),
        final(ctx).db@ == if result is Ok {
            register_scene_effect(old(ctx).db@, old(ctx).timestamp, scene_name@, spawn_point)
        } else {
            old(ctx).db@
        },
        final(ctx).sender == old(ctx).sender,
        final(ctx).timestamp == old(ctx).timestamp,
        old(ctx).db@.wf() ==> final(ctx).db@.wf(),
{
    let kept: &str = trim(scene_name.as_str());
    if kept.unicode_len() == 0 {
        return Err(ReducerError::InvalidSceneName(NameFault::Empty));
    }
    if scene_name.as_str().len() > MAX_SCENE_NAME_BYTES {
        return Err(ReducerError::InvalidSceneName(NameFault::TooLong));
    }
    if ctx.db.next_scene_id == u32::MAX {
        return Err(ReducerError::InsertFailed(Table::WorldScene));
    }
    let mut scene = WorldScene::new(String::from_str(kept), spawn_point, ctx.timestamp);
    scene.scene_id = ctx.db.next_scene_id;
    ctx.db.scenes.push(scene);
    ctx.db.next_scene_id = ctx.db.next_scene_id + 1;
    proof {
        let after = register_scene_effect(
            old(ctx).db@,
            old(ctx).timestamp,
            scene_name@,
            spawn_point,
        );
        assert(ctx.db@.scenes =~= after.scenes);
        assert(ctx.db@.players =~= after.players);
        assert(ctx.db@.logged_out_players =~= after.logged_out_players);
        if old(ctx).db@.wf() {
            lemma_register_scene_keeps_wf(
                old(ctx).db@,
                old(ctx).timestamp,
                scene_name@,
                spawn_point,
            );
        }
    }
    Ok(())
}

/// Whether registering a player succeeds, and if not, why.  The checks are
/// made in this order: the caller must not have a player row, the scene must
/// exist, the name must be acceptable, and the table must have a player id
/// left.
pub open spec fn register_player_outcome(
    db: WorldView,
    sender: Identity,
    name: Seq<char>,
    scene_id: u32,
) -> Result<(), ReducerError> {
    if player_index(db.players, sender) is Some {
        Err(ReducerError::AlreadyRegistered)
    } else if scene_index(db.scenes, scene_id) is None {
        Err(ReducerError::SceneNotFound)
    } else if player_name_fault(name) is Some {
        Err(ReducerError::InvalidName(player_name_fault(name)->0))
    } else if db.next_player_id == u32::MAX {
        Err(ReducerError::InsertFailed(Table::Player))
    } else {
        Ok(())
    }
}

/// The row a new player gets: the next player id, the trimmed name, and a
/// resting avatar at the spawn point.
pub open spec fn new_player_row(
    db: WorldView,
    sender: Identity,
    name: Seq<char>,
    spawn_point: DbVector2,
) -> DbPlayerView {
    DbPlayerView {
        identity: sender,
        player_id: db.next_player_id,
        name: trimmed(name),
        state: DBPlayerState { position: spawn_point, direction: 0, is_jumping: false },
    }
}

/// The store after a player was registered in the scene at index `scene_at`:
/// the player table has their row at its end, and if it was empty before,
/// the clock of the scene starts now.
pub open spec fn register_player_effect(
    db: WorldView,
    sender: Identity,
    timestamp: Timestamp,
    name: Seq<char>,
    scene_id: u32,
) -> WorldView {
    let scene_at = scene_index(db.scenes, scene_id)->0;
    let scene = db.scenes[scene_at];
    WorldView {
        scenes: if db.players.len() == 0 {
            db.scenes.update(
                scene_at,
                WorldSceneView { creation_time: timestamp, last_update_time: timestamp, ..scene },
            )
        } else {
            db.scenes
        },
        players: db.players.push(new_player_row(db, sender, name, scene.spawn_point)),
        next_player_id: (db.next_player_id + 1) as u32,
        ..db
    }
}

/// Registering a player keeps the tables well formed.
pub proof fn lemma_register_player_keeps_wf(
    db: WorldView,
    sender: Identity,
    timestamp: Timestamp,
    name: Seq<char>,
    scene_id: u32,
)
    requires
        db.wf(),
        register_player_outcome(db, sender, name, scene_id) is Ok,
    ensures
        register_player_effect(db, sender, timestamp, name, scene_id).wf(),
{
    let after = register_player_effect(db, sender, timestamp, name, scene_id);
    lemma_first_index(scene_ids(db.scenes), scene_id, 0);
    assert(scene_ids(after.scenes) =~= scene_ids(db.scenes));
    assert forall|i: int| 0 <= i < after.scenes.len() implies (#[trigger] after.scenes[i]).scene_id
        < after.next_scene_id by {
        assert(db.scenes[i].scene_id < db.next_scene_id);
        assert(scene_ids(after.scenes)[i] == scene_ids(db.scenes)[i]);
    }
    lemma_push_fresh_key(player_identities(db.players), sender);
    assert(player_identities(after.players) =~= player_identities(db.players).push(sender));
    assert forall|i: int, j: int|
        0 <= i < after.players.len() && 0 <= j < after.players.len() && i != j implies player_ids(
        after.players,
    )[i] != player_ids(after.players)[j] by {
        if i < db.players.len() {
            assert(db.players[i].player_id < db.next_player_id);
            assert(player_ids(db.players)[i] == db.players[i].player_id);
        }
        if j < db.players.len() {
            assert(db.players[j].player_id < db.next_player_id);
            assert(player_ids(db.players)[j] == db.players[j].player_id);
        }
    }
    assert forall|i: int|
        0 <= i < after.players.len() implies (#[trigger] after.players[i]).player_id
        < after.next_player_id by {
        if i < db.players.len() {
            assert(db.players[i].player_id < db.next_player_id);
        }
    }
}

/// Registers the caller as a player of a scene.
///
/// On success the caller has a player row with the next player id and the
/// trimmed name, resting at the scene's spawn point; if they are the first
/// player in the game, the scene's clock starts at the time of the call.
/// The request is refused, and nothing changes, when the caller is
/// registered already, when the scene does not exist, when the name is
/// empty or longer than 20 characters after trimming, or when the table has
/// no player id left.
pub fn register_player(ctx: &mut ReducerContext, name: String, scene_id: u32) -> (result: Result<
    (),
    ReducerError,
>)
    ensures
        result == register_player_outcome(old(ctx).db@, old(ctx).sender, name@, scene_id),
        final(ctx).db@ == if result is Ok {
            register_player_effect(
                old(ctx).db@,
                old(ctx).sender,
                old(ctx).timestamp,
                name@,
                scene_id,
            )
        } else {
            old(ctx).db@
        },
        final(ctx).sender == old(ctx).sender,
        final(ctx).timestamp == old(ctx).timestamp,
        old(ctx).db@.wf() ==> final(ctx).db@.wf(),
{
    if find_player(&ctx.db.players, ctx.sender).is_some() {
        return Err(ReducerError::AlreadyRegistered);
    }
    let scene_at: usize = match find_scene(&ctx.db.scenes, scene_id) {
        Some(index) => index,
        None => {
            return Err(ReducerError::SceneNotFound);
        },
    };
    let kept: &str = trim(name.as_str());
    let kept_chars: usize = kept.unicode_len();
    if kept_chars == 0 {
        return Err(ReducerError::InvalidName(NameFault::Empty));
    }
    if kept_chars > MAX_PLAYER_NAME_CHARS {
        return Err(ReducerError::InvalidName(NameFault::TooLong));
    }
    if ctx.db.next_player_id == u32::MAX {
        return Err(ReducerError::InsertFailed(Table::Player));
    }
    let now: Timestamp = ctx.timestamp;
    let is_host: bool = ctx.db.players.len() == 0;
    if is_host {
        ctx.db.scenes[scene_at].set_creation_time(now);
    }
    let player = DbPlayer {
        player_id: ctx.db.next_player_id,
        identity: ctx.sender,
        name: String::from_str(kept),
        state: DBPlayerState::with_position(ctx.db.scenes[scene_at].spawn_point),
    };
    ctx.db.players.push(player);
    ctx.db.next_player_id = ctx.db.next_player_id + 1;
    proof {
        let before = old(ctx).db@;
        let after = register_player_effect(before, old(ctx).sender, now, name@, scene_id);
        assert(ctx.db@.scenes =~= after.scenes);
        assert(ctx.db@.players =~= after.players);
        assert(ctx.db@.logged_out_players =~= after.logged_out_players);
        if before.wf() {
            lemma_register_player_keeps_wf(before, old(ctx).sender, now, name@, scene_id);
        }
    }
    Ok(())
}

/// Whether registering a coin succeeds, and if not, why.  A position that
/// holds a coin already is no error.
pub open spec fn register_coin_outcome(db: WorldView, position: DbVector2, scene_id: u32) -> Result<
    (),
    ReducerError,
> {
    if coin_index(db.coins, position) is Some {
        Ok(())
    } else if scene_index(db.scenes, scene_id) is None {
        Err(ReducerError::SceneNotFound)
    } else if db.next_coin_id == u64::MAX {
        Err(ReducerError::InsertFailed(Table::Coin))
    } else {
        Ok(())
    }
}

/// The store after a coin was registered: unchanged if a coin lies at the
/// position already, else with a new, uncollected coin there.
pub open spec fn register_coin_effect(db: WorldView, position: DbVector2, scene_id: u32) -> WorldView {
    if coin_index(db.coins, position) is Some {
        db
    } else {
        WorldView {
            coins: db.coins.push(
                Coin { coin_id: db.next_coin_id, position, scene_id, collected_by: None },
            ),
            next_coin_id: (db.next_coin_id + 1) as u64,
            ..db
        }
    }
}

/// Registering a coin keeps the tables well formed.
pub proof fn lemma_register_coin_keeps_wf(db: WorldView, position: DbVector2, scene_id: u32)
    requires
        db.wf(),
        db.next_coin_id < u64::MAX,
    ensures
        register_coin_effect(db, position, scene_id).wf(),
{
    let after = register_coin_effect(db, position, scene_id);
    if coin_index(db.coins, position) is None {
        lemma_push_fresh_key(coin_positions(db.coins), position);
        assert(coin_positions(after.coins) =~= coin_positions(db.coins).push(position));
        assert forall|i: int, j: int|
            0 <= i < after.coins.len() && 0 <= j < after.coins.len() && i != j implies coin_ids(
            after.coins,
        )[i] != coin_ids(after.coins)[j] by {
            if i < db.coins.len() {
                assert(db.coins[i].coin_id < db.next_coin_id);
                assert(coin_ids(db.coins)[i] == db.coins[i].coin_id);
            }
            if j < db.coins.len() {
                assert(db.coins[j].coin_id < db.next_coin_id);
                assert(coin_ids(db.coins)[j] == db.coins[j].coin_id);
            }
        }
        assert forall|i: int| 0 <= i < after.coins.len() implies (#[trigger] after.coins[i]).coin_id
            < after.next_coin_id by {
            if i < db.coins.len() {
                assert(db.coins[i].coin_id < db.next_coin_id);
            }
        }
    }
}

/// Puts a coin at a position of a scene.
///
/// Registering a position that holds a coin already succeeds and changes
/// nothing.  Otherwise the request is refused, and nothing changes, when
/// the scene does not exist or the table has no coin id left.
pub fn register_coin(ctx: &mut ReducerContext, position: DbVector2, scene_id: u32) -> (result:
    Result<(), ReducerError>)
    ensures
        result == register_coin_outcome(old(ctx).db@, position, scene_id),
        final(ctx).db@ == if result is Ok {
            register_coin_effect(old(ctx).db@, position, scene_id)
        } else {
            old(ctx).db@
        },
        final(ctx).sender == old(ctx).sender,
        final(ctx).timestamp == old(ctx).timestamp,
        old(ctx).db@.wf() ==> final(ctx).db@.wf(),
{
    if find_coin(&ctx.db.coins, position).is_some() {
        return Ok(());
    }
    if find_scene(&ctx.db.scenes, scene_id).is_none() {
        return Err(ReducerError::SceneNotFound);
    }
    if ctx.db.next_coin_id == u64::MAX {
        return Err(ReducerError::InsertFailed(Table::Coin));
    }
    let coin = Coin { coin_id: ctx.db.next_coin_id, position, scene_id, collected_by: None };
    ctx.db.coins.push(coin);
    ctx.db.next_coin_id = ctx.db.next_coin_id + 1;
    proof {
        if old(ctx).db@.wf() {
            lemma_register_coin_keeps_wf(old(ctx).db@, position, scene_id);
        }
    }
    Ok(())
}

} // verus!
