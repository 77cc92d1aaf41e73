//! Reducers the store calls itself: when it starts, and when clients come
//! and go.

use crate::identity::{Identity, Timestamp};
use crate::server::elements::WorldSceneView;
use crate::server::store::{
    find_player, find_scene, lemma_first_index, lemma_push_fresh_key, lemma_remove_keeps_distinct,
    player_identities, player_ids, player_index, scene_ids, scene_index, ReducerContext,
    ReducerError, Table, WorldView,
};
use crate::server::world_scene_config::{
    initialize_all_scenes_outcome, initialize_scenes, lemma_starting_layout, scene_configs,
    WorldSceneConfig,
};
use vstd::prelude::*;

verus! {

/// The scene every client plays in.
pub const MAIN_SCENE_ID: u32 = 1;

/// Called once, when the store starts: sets up the starting layout.
///
/// The request is refused, and nothing changes, when the table lacks a
/// scene id for one of the scenes of the layout.
pub fn init(ctx: &mut ReducerContext) -> (result: Result<(), ReducerError>)
    ensures
        result == initialize_all_scenes_outcome(old(ctx).db@),
        final(ctx).db@ == if result is Ok {
            initialize_scenes(old(ctx).db@, old(ctx).timestamp, scene_configs())
        } else {
            old(ctx).db@
        },
        final(ctx).sender == old(ctx).sender,
        final(ctx).timestamp == old(ctx).timestamp,
        old(ctx).db@ == WorldView::empty() ==> result is Ok && final(ctx).db@.wf(),
{
    proof {
        lemma_starting_layout(ctx.timestamp);
    }
    WorldSceneConfig::initialize_all_scenes(ctx)
}

/// Whether a client may connect: it must not have a player in the game.
pub open spec fn identity_connected_outcome(db: WorldView, sender: Identity) -> Result<
    (),
    ReducerError,
> {
    if player_index(db.players, sender) is Some {
        Err(ReducerError::AlreadyInGame)
    } else {
        Ok(())
    }
}

/// The store after a client connected: a logged-out row of theirs is gone.
pub open spec fn identity_connected_effect(db: WorldView, sender: Identity) -> WorldView {
    match player_index(db.logged_out_players, sender) {
        Some(row_at) => WorldView {
            logged_out_players: db.logged_out_players.remove(row_at),
            ..db
        },
        None => db,
    }
}

/// A connecting client keeps the tables well formed.
pub proof fn lemma_identity_connected_keeps_wf(db: WorldView, sender: Identity)
    requires
        db.wf(),
    ensures
        identity_connected_effect(db, sender).wf(),
{
    let after = identity_connected_effect(db, sender);
    lemma_first_index(player_identities(db.logged_out_players), sender, 0);
    match player_index(db.logged_out_players, sender) {
        Some(row_at) => {
            lemma_remove_keeps_distinct(player_identities(db.logged_out_players), row_at);
            assert(player_identities(after.logged_out_players) =~= player_identities(
                db.logged_out_players,
            ).remove(row_at));
        },
        None => {},
    }
}

/// Called when a client connects.
///
/// A client whose player is still in the game is refused, and nothing
/// changes.  Otherwise the row that an earlier disconnect of this client
/// left among the logged-out players, if there is one, is removed.
pub fn identity_connected(ctx: &mut ReducerContext) -> (result: Result<(), ReducerError>)
    ensures
        result == identity_connected_outcome(old(ctx).db@, old(ctx).sender),
        final(ctx).db@ == if result is Ok {
            identity_connected_effect(old(ctx).db@, old(ctx).sender)
        } else {
            old(ctx).db@
        },
        final(ctx).sender == old(ctx).sender,
        final(ctx).timestamp == old(ctx).timestamp,
        old(ctx).db@.wf() ==> final(ctx).db@.wf(),
{
    if find_player(&ctx.db.players, ctx.sender).is_some() {
        return Err(ReducerError::AlreadyInGame);
    }
    match find_player(&ctx.db.logged_out_players, ctx.sender) {
        Some(row_at) => {
            let _ = ctx.db.logged_out_players.remove(row_at);
        },
        None => {},
    }
    proof {
        let after = identity_connected_effect(old(ctx).db@, old(ctx).sender);
        assert(ctx.db@.logged_out_players =~= after.logged_out_players);
        if old(ctx).db@.wf() {
            lemma_identity_connected_keeps_wf(old(ctx).db@, old(ctx).sender);
        }
    }
    Ok(())
}

/// Whether a disconnect can be recorded.  It cannot when the client has a
/// player in the game and a logged-out row as well: the row cannot be moved
/// where one of the same identity lies.
pub open spec fn identity_disconnected_outcome(db: WorldView, sender: Identity) -> Result<
    (),
    ReducerError,
> {
    if player_index(db.players, sender) is Some && player_index(db.logged_out_players, sender)
        is Some {
        Err(ReducerError::InsertFailed(Table::LoggedOutPlayer))
    } else {
        Ok(())
    }
}

/// The store after a client disconnected: their player row, if they had
/// one, has moved to the end of the logged-out players.
pub open spec fn identity_disconnected_effect(db: WorldView, sender: Identity) -> WorldView {
    match player_index(db.players, sender) {
        Some(row_at) => WorldView {
            players: db.players.remove(row_at),
            logged_out_players: db.logged_out_players.push(db.players[row_at]),
            ..db
        },
        None => db,
    }
}

/// A disconnecting client keeps the tables well formed.
pub proof fn lemma_identity_disconnected_keeps_wf(db: WorldView, sender: Identity)
    requires
        db.wf(),
        identity_disconnected_outcome(db, sender) is Ok,
    ensures
        identity_disconnected_effect(db, sender).wf(),
{
    let after = identity_disconnected_effect(db, sender);
    lemma_first_index(player_identities(db.players), sender, 0);
    match player_index(db.players, sender) {
        Some(row_at) => {
            lemma_remove_keeps_distinct(player_identities(db.players), row_at);
            lemma_remove_keeps_distinct(player_ids(db.players), row_at);
            assert(player_identities(after.players) =~= player_identities(db.players).remove(
                row_at,
            ));
            assert(player_ids(after.players) =~= player_ids(db.players).remove(row_at));
            lemma_push_fresh_key(player_identities(db.logged_out_players), sender);
            assert(player_identities(after.logged_out_players) =~= player_identities(
                db.logged_out_players,
            ).push(sender));
            assert forall|i: int|
                0 <= i < after.players.len() implies (#[trigger] after.players[i]).player_id
                < after.next_player_id by {
                let from = if i < row_at {
                    i
                } else {
                    i + 1
                };
                assert(after.players[i] == db.players[from]);
            }
        },
        None => {},
    }
}

/// Called when a client disconnects.
///
/// The client's player row, if it has one, moves from the game to the
/// logged-out players; its coins and its score stay.  Should a logged-out
/// row of the same identity exist, the disconnect is refused and nothing
/// changes.
pub fn identity_disconnected(ctx: &mut ReducerContext) -> (result: Result<(), ReducerError>)
    ensures
        result == identity_disconnected_outcome(old(ctx).db@, old(ctx).sender),
        final(ctx).db@ == if result is Ok {
            identity_disconnected_effect(old(ctx).db@, old(ctx).sender)
        } else {
            old(ctx).db@
        },
        final(ctx).sender == old(ctx).sender,
        final(ctx).timestamp == old(ctx).timestamp,
        old(ctx).db@.wf() ==> final(ctx).db@.wf(),
{
    match find_player(&ctx.db.players, ctx.sender) {
        Some(row_at) => {
            if find_player(&ctx.db.logged_out_players, ctx.sender).is_some() {
                return Err(ReducerError::InsertFailed(Table::LoggedOutPlayer));
            }
            let player = ctx.db.players.remove(row_at);
            ctx.db.logged_out_players.push(player);
        },
        None => {},
    }
    proof {
        let after = identity_disconnected_effect(old(ctx).db@, old(ctx).sender);
        assert(ctx.db@.players =~= after.players);
        assert(ctx.db@.logged_out_players =~= after.logged_out_players);
        if old(ctx).db@.wf() {
            lemma_identity_disconnected_keeps_wf(old(ctx).db@, old(ctx).sender);
        }
    }
    Ok(())
}

/// Whether the main scene's clock can be read forward: the scene must exist.
pub open spec fn update_timestamp_outcome(db: WorldView) -> Result<(), ReducerError> {
    if scene_index(db.scenes, MAIN_SCENE_ID) is None {
        Err(ReducerError::SceneNotFound)
    } else {
        Ok(())
    }
}

/// The store after the main scene's last update was set to `timestamp`.
pub open spec fn update_timestamp_effect(db: WorldView, timestamp: Timestamp) -> WorldView {
    let scene_at = scene_index(db.scenes, MAIN_SCENE_ID)->0;
    WorldView {
        scenes: db.scenes.update(
            scene_at,
            WorldSceneView { last_update_time: timestamp, ..db.scenes[scene_at] },
        ),
        ..db
    }
}

/// Stamping the main scene keeps the tables well formed.
pub proof fn lemma_update_timestamp_keeps_wf(db: WorldView, timestamp: Timestamp)
    requires
        db.wf(),
        scene_index(db.scenes, MAIN_SCENE_ID) is Some,
    ensures
        update_timestamp_effect(db, timestamp).wf(),
{
    let after = update_timestamp_effect(db, timestamp);
    lemma_first_index(scene_ids(db.scenes), MAIN_SCENE_ID, 0);
    assert(scene_ids(after.scenes) =~= scene_ids(db.scenes));
    assert forall|i: int| 0 <= i < after.scenes.len() implies (#[trigger] after.scenes[i]).scene_id
        < after.next_scene_id by {
        assert(db.scenes[i].scene_id < db.next_scene_id);
    }
}

/// Sets the main scene's last update to the time of the call.
///
/// The request is refused, and nothing changes, when the main scene does
/// not exist.
pub fn update_timestamp(ctx: &mut ReducerContext) -> (result: Result<(), ReducerError>)
    ensures
        result == update_timestamp_outcome(old(ctx).db@),
        final(ctx).db@ == if result is Ok {
            update_timestamp_effect(old(ctx).db@, old(ctx).timestamp)
        } else {
            old(ctx).db@
        },
        final(ctx).sender == old(ctx).sender,
        final(ctx).timestamp == old(ctx).timestamp,
        old(ctx).db@.wf() ==> final(ctx).db@.wf(),
{
    let scene_at: usize = match find_scene(&ctx.db.scenes, MAIN_SCENE_ID) {
        Some(index) => index,
        None => {
            return Err(ReducerError::SceneNotFound);
        },
    };
    let now: Timestamp = ctx.timestamp;
    ctx.db.scenes[scene_at].last_update_time = now;
    proof {
        let after = update_timestamp_effect(old(ctx).db@, now);
        assert(ctx.db@.scenes =~= after.scenes);
        assert(ctx.db@.players =~= after.players);
        assert(ctx.db@.logged_out_players =~= after.logged_out_players);
        if old(ctx).db@.wf() {
            lemma_update_timestamp_keeps_wf(old(ctx).db@, now);
        }
    }
    Ok(())
}

} // verus!
