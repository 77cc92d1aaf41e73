//! Collecting coins.

use crate::identity::Identity;
use crate::server::elements::{Coin, PlayerScore};
use crate::server::store::{
    coin_ids, coin_index, coin_positions, find_coin, find_player, find_score, lemma_first_index,
    lemma_push_fresh_key, player_index, score_identities, score_ids, score_index, ReducerContext,
    ReducerError, Table, WorldView,
};
use crate::vector::DbVector2;
use vstd::prelude::*;

verus! {

/// Whether collecting the coin at `position` succeeds, and if not, why.
/// The checks are made in this order: the caller must be registered, a coin
/// must lie at the position, and it must not have a collector yet.  A caller
/// without a score needs a score id, which the table must still have.
pub open spec fn try_collect_coin_outcome(
    db: WorldView,
    sender: Identity,
    position: DbVector2,
) -> Result<(), ReducerError> {
    if player_index(db.players, sender) is None {
        Err(ReducerError::NotRegistered)
    } else if coin_index(db.coins, position) is None {
        Err(ReducerError::CoinNotFound)
    } else if db.coins[coin_index(db.coins, position)->0].collected_by is Some {
        Err(ReducerError::AlreadyCollected)
    } else if score_index(db.scores, sender) is None && db.next_score_id == u64::MAX {
        Err(ReducerError::InsertFailed(Table::PlayerScore))
    } else {
        Ok(())
    }
}

/// The store after the caller collected the coin at `position`: the coin
/// names them as its collector, and their score counts one coin more; a
/// caller without a score gets one, of one coin, for the coin's scene.
pub open spec fn try_collect_coin_effect(
    db: WorldView,
    sender: Identity,
    position: DbVector2,
) -> WorldView {
    let coin_at = coin_index(db.coins, position)->0;
    let coin = db.coins[coin_at];
    let coins = db.coins.update(coin_at, Coin { collected_by: Some(sender), ..coin });
    match score_index(db.scores, sender) {
        Some(score_at) => {
            let score = db.scores[score_at];
            WorldView {
                coins,
                scores: db.scores.update(
                    score_at,
                    PlayerScore {
                        coins_collected: PlayerScore::coins_after_add(score.coins_collected),
                        ..score
                    },
                ),
                ..db
            }
        },
        None => WorldView {
            coins,
            scores: db.scores.push(
                PlayerScore {
                    score_id: db.next_score_id,
                    player_identity: sender,
                    coins_collected: 1,
                    scene_id: coin.scene_id,
                },
            ),
            next_score_id: (db.next_score_id + 1) as u64,
            ..db
        },
    }
}

/// Collecting a coin keeps the tables well formed.
pub proof fn lemma_try_collect_coin_keeps_wf(db: WorldView, sender: Identity, position: DbVector2)
    requires
        db.wf(),
        try_collect_coin_outcome(db, sender, position) is Ok,
    ensures
        try_collect_coin_effect(db, sender, position).wf(),
{
    let after = try_collect_coin_effect(db, sender, position);
    lemma_first_index(coin_positions(db.coins), position, 0);
    assert(coin_positions(after.coins) =~= coin_positions(db.coins));
    assert(coin_ids(after.coins) =~= coin_ids(db.coins));
    assert forall|i: int| 0 <= i < after.coins.len() implies (#[trigger] after.coins[i]).coin_id
        < after.next_coin_id by {
        assert(db.coins[i].coin_id < db.next_coin_id);
    }
    lemma_first_index(score_identities(db.scores), sender, 0);
    match score_index(db.scores, sender) {
        Some(score_at) => {
            assert(score_identities(after.scores) =~= score_identities(db.scores));
            assert(score_ids(after.scores) =~= score_ids(db.scores));
            assert forall|i: int|
                0 <= i < after.scores.len() implies (#[trigger] after.scores[i]).score_id
                < after.next_score_id by {
                assert(db.scores[i].score_id < db.next_score_id);
            }
        },
        None => {
            lemma_push_fresh_key(score_identities(db.scores), sender);
            assert(score_identities(after.scores) =~= score_identities(db.scores).push(sender));
            assert forall|i: int, j: int|
                0 <= i < after.scores.len() && 0 <= j < after.scores.len() && i
                    != j implies score_ids(after.scores)[i] != score_ids(after.scores)[j] by {
                if i < db.scores.len() {
                    assert(db.scores[i].score_id < db.next_score_id);
                    assert(score_ids(db.scores)[i] == db.scores[i].score_id);
                }
                if j < db.scores.len() {
                    assert(db.scores[j].score_id < db.next_score_id);
                    assert(score_ids(db.scores)[j] == db.scores[j].score_id);
                }
            }
            assert forall|i: int|
                0 <= i < after.scores.len() implies (#[trigger] after.scores[i]).score_id
                < after.next_score_id by {
                if i < db.scores.len() {
                    assert(db.scores[i].score_id < db.next_score_id);
                }
            }
        },
    }
}

/// Collects the coin at `position` for the caller.
///
/// On success the coin names the caller as its collector and the caller's
/// score counts one coin more, a first score being created for the coin's
/// scene.  The request is refused, and nothing changes, when the caller is
/// not registered, when no coin lies at the position, when the coin has a
/// collector already, or when a first score is needed and the table has no
/// score id left.
pub fn try_collect_coin(ctx: &mut ReducerContext, position: DbVector2) -> (result: Result<
    (),
    ReducerError,
>)
    ensures
        result == try_collect_coin_outcome(old(ctx).db@, old(ctx).sender, position),
        final(ctx).db@ == if result is Ok {
            try_collect_coin_effect(old(ctx).db@, old(ctx).sender, position)
        } else {
            old(ctx).db@
        },
        final(ctx).sender == old(ctx).sender,
        final(ctx).timestamp == old(ctx).timestamp,
        old(ctx).db@.wf() ==> final(ctx).db@.wf(),
{
    if find_player(&ctx.db.players, ctx.sender).is_none() {
        return Err(ReducerError::NotRegistered);
    }
    let coin_at: usize = match find_coin(&ctx.db.coins, position) {
        Some(index) => index,
        None => {
            return Err(ReducerError::CoinNotFound);
        },
    };
    if ctx.db.coins[coin_at].collected_by.is_some() {
        return Err(ReducerError::AlreadyCollected);
    }
    let score_at: Option<usize> = find_score(&ctx.db.scores, ctx.sender);
    if score_at.is_none() && ctx.db.next_score_id == u64::MAX {
        return Err(ReducerError::InsertFailed(Table::PlayerScore));
    }
    let mut coin: Coin = ctx.db.coins[coin_at];
    coin.collected_by = Some(ctx.sender);
    ctx.db.coins.set(coin_at, coin);
    match score_at {
        Some(index) => {
            let mut score: PlayerScore = ctx.db.scores[index];
            score.add_coin();
            ctx.db.scores.set(index, score);
        },
        None => {
            let mut new_score = PlayerScore::new(ctx.sender, coin.scene_id);
            new_score.score_id = ctx.db.next_score_id;
            new_score.add_coin();
            ctx.db.scores.push(new_score);
            ctx.db.next_score_id = ctx.db.next_score_id + 1;
        },
    }
    proof {
        if old(ctx).db@.wf() {
            lemma_try_collect_coin_keeps_wf(old(ctx).db@, old(ctx).sender, position);
        }
    }
    Ok(())
}

} // verus!
