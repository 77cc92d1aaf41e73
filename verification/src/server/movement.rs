//! Movement updates.

use crate::identity::Identity;
use crate::server::elements::{DBPlayerState, DbPlayerView};
use crate::server::store::{
    find_player, lemma_first_index, player_identities, player_ids, player_index, ReducerContext,
    ReducerError, WorldView,
};
use vstd::prelude::*;

verus! {

/// Whether a movement update is accepted: the caller must be registered.
pub open spec fn send_player_state_outcome(db: WorldView, sender: Identity) -> Result<
    (),
    ReducerError,
> {
    if player_index(db.players, sender) is None {
        Err(ReducerError::NotRegistered)
    } else {
        Ok(())
    }
}

/// The store after a movement update: the caller's row holds the new state,
/// whatever it held before.
pub open spec fn send_player_state_effect(
    db: WorldView,
    sender: Identity,
    state: DBPlayerState,
) -> WorldView {
    let player_at = player_index(db.players, sender)->0;
    WorldView {
        players: db.players.update(player_at, DbPlayerView { state, ..db.players[player_at] }),
        ..db
    }
}

/// A movement update keeps the tables well formed.
pub proof fn lemma_send_player_state_keeps_wf(db: WorldView, sender: Identity, state: DBPlayerState)
    requires
        db.wf(),
        player_index(db.players, sender) is Some,
    ensures
        send_player_state_effect(db, sender, state).wf(),
{
    let after = send_player_state_effect(db, sender, state);
    lemma_first_index(player_identities(db.players), sender, 0);
    assert(player_identities(after.players) =~= player_identities(db.players));
    assert(player_ids(after.players) =~= player_ids(db.players));
    assert forall|i: int|
        0 <= i < after.players.len() implies (#[trigger] after.players[i]).player_id
        < after.next_player_id by {
        assert(db.players[i].player_id < db.next_player_id);
    }
}

/// Stores what the caller reports about its avatar.
///
/// The last report wins: the state is taken as it is, without comparing it
/// with the one it replaces.  The request is refused, and nothing changes,
/// when the caller is not registered.
pub fn send_player_state(ctx: &mut ReducerContext, state: DBPlayerState) -> (result: Result<
    (),
    ReducerError,
>)
    ensures
        result == send_player_state_outcome(old(ctx).db@, old(ctx).sender),
        final(ctx).db@ == if result is Ok {
            send_player_state_effect(old(ctx).db@, old(ctx).sender, state)
        } else {
            old(ctx).db@
        },
        final(ctx).sender == old(ctx).sender,
        final(ctx).timestamp == old(ctx).timestamp,
        old(ctx).db@.wf() ==> final(ctx).db@.wf(),
{
    let player_at: usize = match find_player(&ctx.db.players, ctx.sender) {
        Some(index) => index,
        None => {
            return Err(ReducerError::NotRegistered);
        },
    };
    ctx.db.players[player_at].state = state;
    proof {
        let after = send_player_state_effect(old(ctx).db@, old(ctx).sender, state);
        assert(ctx.db@.players =~= after.players);
        assert(ctx.db@.scenes =~= after.scenes);
        assert(ctx.db@.logged_out_players =~= after.logged_out_players);
        if old(ctx).db@.wf() {
            lemma_send_player_state_keeps_wf(old(ctx).db@, old(ctx).sender, state);
        }
    }
    Ok(())
}

} // verus!
