//! What holds of the reducers across calls.

use crate::identity::{Identity, Timestamp};
use crate::server::interaction::{try_collect_coin_effect, try_collect_coin_outcome};
use crate::server::registration::{register_player_effect, register_player_outcome};
use crate::server::store::{
    coin_index, coin_positions, lemma_first_index, lemma_first_index_is, player_identities,
    player_index, score_index, ReducerError, WorldView,
};
use crate::vector::DbVector2;
use vstd::prelude::*;

verus! {

/// A player who has registered is registered: the player table holds a row
/// of theirs, and it is the row that registering made.
pub proof fn lemma_registered_after_register_player(
    db: WorldView,
    sender: Identity,
    timestamp: Timestamp,
    name: Seq<char>,
    scene_id: u32,
)
    requires
        register_player_outcome(db, sender, name, scene_id) is Ok,
    ensures
        player_index(
            register_player_effect(db, sender, timestamp, name, scene_id).players,
            sender,
        ) == Some(db.players.len() as int),
{
    let after = register_player_effect(db, sender, timestamp, name, scene_id);
    lemma_first_index(player_identities(db.players), sender, 0);
    assert forall|j: int| 0 <= j < db.players.len() implies #[trigger] player_identities(
        after.players,
    )[j] != sender by {
        assert(player_identities(db.players)[j] != sender);
    }
    lemma_first_index_is(player_identities(after.players), sender, 0, db.players.len() as int);
}

/// Registration is once per identity: when a call to register either
/// succeeds or is refused because the caller is registered, the caller's
/// next call to register is refused with `AlreadyRegistered`, whatever name
/// and scene it asks for.
pub proof fn law_register_twice_is_refused(
    db: WorldView,
    sender: Identity,
    first_time: Timestamp,
    first_name: Seq<char>,
    first_scene_id: u32,
    second_name: Seq<char>,
    second_scene_id: u32,
)
    requires
        register_player_outcome(db, sender, first_name, first_scene_id) is Ok
            || register_player_outcome(db, sender, first_name, first_scene_id) == Err::<
            (),
            ReducerError,
        >(ReducerError::AlreadyRegistered),
    ensures
        ({
            let first = register_player_outcome(db, sender, first_name, first_scene_id);
            let between = if first is Ok {
                register_player_effect(db, sender, first_time, first_name, first_scene_id)
            } else {
                db
            };
            register_player_outcome(between, sender, second_name, second_scene_id) == Err::<
                (),
                ReducerError,
            >(ReducerError::AlreadyRegistered)
        }),
{
    if register_player_outcome(db, sender, first_name, first_scene_id) is Ok {
        lemma_registered_after_register_player(db, sender, first_time, first_name, first_scene_id);
    }
}

/// A coin is collected once: when two registered players ask for the same
/// uncollected coin, whichever call the store runs first succeeds and the
/// other is refused with `AlreadyCollected` and changes nothing; the coin
/// then names the first caller as its collector.
///
/// The first caller must be able to get a score: they have one, or the
/// score table has an id left.
pub proof fn law_coin_is_collected_once(
    db: WorldView,
    first: Identity,
    second: Identity,
    position: DbVector2,
)
    requires
        first != second,
        player_index(db.players, first) is Some,
        player_index(db.players, second) is Some,
        coin_index(db.coins, position) is Some,
        db.coins[coin_index(db.coins, position)->0].collected_by is None,
        score_index(db.scores, first) is Some || db.next_score_id < u64::MAX,
    ensures
        try_collect_coin_outcome(db, first, position) is Ok,
        ({
            let between = try_collect_coin_effect(db, first, position);
            &&& try_collect_coin_outcome(between, second, position) == Err::<(), ReducerError>(
                ReducerError::AlreadyCollected,
            )
            &&& coin_index(between.coins, position) == coin_index(db.coins, position)
            &&& between.coins[coin_index(between.coins, position)->0].collected_by == Some(first)
        }),
{
    let between = try_collect_coin_effect(db, first, position);
    lemma_first_index(coin_positions(db.coins), position, 0);
    assert(coin_positions(between.coins) =~= coin_positions(db.coins));
}

} // verus!
