//! The roster of remote avatars, kept in step with the players the store
//! reports.
//!
//! Each frame the roster is held against the rows of the other players:
//! a player that is not in the roster gets an avatar, where the store last
//! saw them; a player that is in the roster has their newest pose passed to
//! their avatar; and an avatar whose player is no longer reported is
//! removed at once.  When the session is lost the roster is emptied.

use crate::characters::remote_player::{RemotePlayerNode, RemotePlayerSpawn, RemoteState};
use crate::identity::Identity;
use crate::server::elements::{DBPlayerState, DbPlayer, DbPlayerView};
use crate::server::store::{
    find_player, first_index, lemma_first_index, lemma_push_fresh_key,
    lemma_remove_keeps_distinct, player_index, player_rows,
};
use crate::vector::Vector2;
use vstd::prelude::*;

verus! {

/// Frames a second the game runs at.
pub const FRAME_RATE: i32 = 60;

/// A remote avatar with the identity of its player.
#[derive(Clone, Copy, Debug, PartialEq, Eq, Structural)]
pub struct RemotePlayer {
    pub identity: Identity,
    pub node: RemotePlayerNode,
}

/// A remote avatar to show.
#[derive(Debug)]
pub struct RemotePlayerArrival {
    pub identity: Identity,
    pub spawn: RemotePlayerSpawn,
}

/// What has changed in the roster: the avatars to show and the avatars to
/// take away.
#[derive(Debug)]
pub struct RosterChanges {
    pub spawned: Vec<RemotePlayerArrival>,
    pub removed: Vec<Identity>,
}

/// Owns the roster of remote avatars.
#[derive(Debug)]
pub struct MultiplayerManager {
    pub remote_players: Vec<RemotePlayer>,
}

pub open spec fn roster_identities(roster: Seq<RemotePlayer>) -> Seq<Identity> {
    Seq::new(roster.len(), |i: int| roster[i].identity)
}

/// Index of the avatar of `identity` in the roster.
pub open spec fn roster_index(roster: Seq<RemotePlayer>, identity: Identity) -> Option<int> {
    first_index(roster_identities(roster), identity, 0)
}

/// An avatar after it was told a pose the store reports.
pub open spec fn with_report(node: RemotePlayerNode, state: DBPlayerState) -> RemotePlayerNode {
    RemotePlayerNode {
        last_server_state: Some(
            RemoteState {
                position: Vector2 { x: state.position.x, y: state.position.y },
                direction: state.direction,
                is_jumping: state.is_jumping,
            },
        ),
        current_direction: state.direction,
        current_jumping: state.is_jumping,
        ..node
    }
}

/// The roster after one reported player was taken in: their avatar is told
/// their pose, or, if they have none, a fresh avatar joins the roster.
pub open spec fn take_in(roster: Seq<RemotePlayer>, player: DbPlayerView) -> Seq<RemotePlayer> {
    match roster_index(roster, player.identity) {
        Some(at) => roster.update(
            at,
            RemotePlayer { identity: player.identity, node: with_report(roster[at].node, player.state) },
        ),
        None => roster.push(
            RemotePlayer { identity: player.identity, node: RemotePlayerNode::initial() },
        ),
    }
}

/// The roster after each of `players` was taken in, in order.
pub open spec fn take_in_all(roster: Seq<RemotePlayer>, players: Seq<DbPlayerView>) -> Seq<
    RemotePlayer,
>
    decreases players.len(),
{
    if players.len() == 0 {
        roster
    } else {
        take_in(take_in_all(roster, players.drop_last()), players.last())
    }
}

/// The players among `players` that had no avatar when they were taken in,
/// in order.
pub open spec fn arrivals(roster: Seq<RemotePlayer>, players: Seq<DbPlayerView>) -> Seq<
    DbPlayerView,
>
    decreases players.len(),
{
    if players.len() == 0 {
        Seq::empty()
    } else {
        let before = arrivals(roster, players.drop_last());
        if roster_index(take_in_all(roster, players.drop_last()), players.last().identity)
            is None {
            before.push(players.last())
        } else {
            before
        }
    }
}

/// The avatars of the roster whose player is among `players`, in order.
pub open spec fn present(roster: Seq<RemotePlayer>, players: Seq<DbPlayerView>) -> Seq<RemotePlayer>
    decreases roster.len(),
{
    if roster.len() == 0 {
        Seq::empty()
    } else {
        let before = present(roster.drop_last(), players);
        if player_index(players, roster.last().identity) is Some {
            before.push(roster.last())
        } else {
            before
        }
    }
}

/// The identities of the roster whose player is not among `players`, in
/// order.
pub open spec fn departures(roster: Seq<RemotePlayer>, players: Seq<DbPlayerView>) -> Seq<Identity>
    decreases roster.len(),
{
    if roster.len() == 0 {
        Seq::empty()
    } else {
        let before = departures(roster.drop_last(), players);
        if player_index(players, roster.last().identity) is Some {
            before
        } else {
            before.push(roster.last().identity)
        }
    }
}

/// The roster after a frame in which the store reports `players`.
pub open spec fn roster_after(roster: Seq<RemotePlayer>, players: Seq<DbPlayerView>) -> Seq<
    RemotePlayer,
> {
    present(take_in_all(roster, players), players)
}

/// What showing an arrival takes.
pub open spec fn arrival_matches(arrival: RemotePlayerArrival, player: DbPlayerView) -> bool {
    &&& arrival.identity == player.identity
    &&& arrival.spawn.node == RemotePlayerNode::initial()
    &&& arrival.spawn.position == (Vector2 { x: player.state.position.x, y: player.state.position.y })
    &&& arrival.spawn.name@ == player.name
}

pub open spec fn arrivals_match(spawned: Seq<RemotePlayerArrival>, players: Seq<DbPlayerView>) -> bool {
    &&& spawned.len() == players.len()
    &&& forall|i: int| 0 <= i < spawned.len() ==> arrival_matches(#[trigger] spawned[i], players[i])
}

/// Taking a player in keeps the identities of the roster distinct.
pub proof fn lemma_take_in_keeps_distinct(roster: Seq<RemotePlayer>, player: DbPlayerView)
    requires
        roster_identities(roster).no_duplicates(),
    ensures
        roster_identities(take_in(roster, player)).no_duplicates(),
{
    lemma_first_index(roster_identities(roster), player.identity, 0);
    match roster_index(roster, player.identity) {
        Some(at) => {
            assert(roster_identities(take_in(roster, player)) =~= roster_identities(roster));
        },
        None => {
            lemma_push_fresh_key(roster_identities(roster), player.identity);
            assert(roster_identities(take_in(roster, player)) =~= roster_identities(roster).push(
                player.identity,
            ));
        },
    }
}

/// Taking players in keeps the identities of the roster distinct.
pub proof fn lemma_take_in_all_keeps_distinct(roster: Seq<RemotePlayer>, players: Seq<DbPlayerView>)
    requires
        roster_identities(roster).no_duplicates(),
    ensures
        roster_identities(take_in_all(roster, players)).no_duplicates(),
    decreases players.len(),
{
    if players.len() > 0 {
        lemma_take_in_all_keeps_distinct(roster, players.drop_last());
        lemma_take_in_keeps_distinct(take_in_all(roster, players.drop_last()), players.last());
    }
}

/// The avatars that stay are avatars of the roster, in its order: each has
/// its place in the roster, and the places rise.
pub proof fn lemma_present_is_subsequence(roster: Seq<RemotePlayer>, players: Seq<DbPlayerView>)
    ensures
        present(roster, players).len() <= roster.len(),
        forall|i: int|
            0 <= i < present(roster, players).len() ==> exists|k: int|
                i <= k < roster.len() && roster[k] == #[trigger] present(roster, players)[i],
        roster_identities(roster).no_duplicates() ==> roster_identities(
            present(roster, players),
        ).no_duplicates(),
    decreases roster.len(),
{
    if roster.len() > 0 {
        let shorter = roster.drop_last();
        lemma_present_is_subsequence(shorter, players);
        let before = present(shorter, players);
        let kept = present(roster, players);
        assert forall|i: int| 0 <= i < kept.len() implies exists|k: int|
            i <= k < roster.len() && roster[k] == #[trigger] kept[i] by {
            if i < before.len() {
                assert(kept[i] == before[i]);
                let k = choose|k: int| i <= k < shorter.len() && shorter[k] == before[i];
                assert(roster[k] == kept[i]);
            } else {
                assert(roster[roster.len() - 1] == kept[i]);
            }
        }
        if roster_identities(roster).no_duplicates() {
            assert forall|a: int, b: int|
                0 <= a < shorter.len() && 0 <= b < shorter.len() && a
                    != b implies roster_identities(shorter)[a] != roster_identities(shorter)[b] by {
                assert(roster_identities(roster)[a] != roster_identities(roster)[b]);
            }
            assert forall|a: int, b: int|
                0 <= a < kept.len() && 0 <= b < kept.len() && a != b implies roster_identities(
                kept,
            )[a] != roster_identities(kept)[b] by {
                if a < before.len() && b < before.len() {
                    assert(roster_identities(before)[a] != roster_identities(before)[b]);
                } else {
                    let low = if a < b {
                        a
                    } else {
                        b
                    };
                    let k = choose|k: int| low <= k < shorter.len() && shorter[k] == before[low];
                    assert(roster_identities(roster)[k] != roster_identities(roster)[roster.len()
                        - 1]);
                }
            }
        }
    }
}

impl MultiplayerManager {
    pub fn new() -> (manager: MultiplayerManager)
        ensures
            manager.remote_players@.len() == 0,
            manager.wf(),
    {
        MultiplayerManager { remote_players: Vec::new() }
    }

    /// No player has two avatars.
    pub open spec fn wf(self) -> bool {
        roster_identities(self.remote_players@).no_duplicates()
    }

    /// Brings the roster in step with the players the store reports, and
    /// says which avatars are to be shown and which are to be taken away.
    pub fn sync_remote_players(&mut self, players: &Vec<DbPlayer>) -> (changes: RosterChanges)
        ensures
            final(self).remote_players@ == roster_after(
                old(self).remote_players@,
                player_rows(players@),
            ),
            arrivals_match(
                changes.spawned@,
                arrivals(old(self).remote_players@, player_rows(players@)),
            ),
            changes.removed@ == departures(
                take_in_all(old(self).remote_players@, player_rows(players@)),
                player_rows(players@),
            ),
            old(self).wf() ==> final(self).wf(),
    {
        let ghost rows = player_rows(players@);
        let ghost start = self.remote_players@;
        let mut spawned: Vec<RemotePlayerArrival> = Vec::new();
        let mut i: usize = 0;
        assert(rows.take(0) =~= Seq::empty());
        while i < players.len()
            invariant
                i <= players@.len(),
                rows == player_rows(players@),
                self.remote_players@ == take_in_all(start, rows.take(i as int)),
                arrivals_match(spawned@, arrivals(start, rows.take(i as int))),
            decreases players@.len() - i,
        {
            let player: &DbPlayer = &players[i];
            proof {
                assert(rows.take(i + 1).drop_last() =~= rows.take(i as int));
                assert(rows.take(i + 1).last() == player@);
            }
            let ghost before = self.remote_players@;
            match self.find_remote_player(player.identity) {
                Some(at) => {
                    let mut remote_player: RemotePlayer = self.remote_players[at];
                    remote_player.node.set_player_position(
                        player.state.direction,
                        player.state.is_jumping,
                        Vector2::new(player.state.position.x, player.state.position.y),
                    );
                    proof {
                        lemma_first_index(roster_identities(before), player.identity, 0);
                        assert(roster_identities(before)[at as int] == before[at as int].identity);
                    }
                    self.remote_players.set(at, remote_player);
                },
                None => {
                    let spawn = RemotePlayerNode::spawn_object(player);
                    self.remote_players.push(
                        RemotePlayer { identity: player.identity, node: spawn.node },
                    );
                    spawned.push(RemotePlayerArrival { identity: player.identity, spawn });
                },
            }
            i = i + 1;
        }
        assert(rows.take(players@.len() as int) =~= rows);
        let ghost taken = self.remote_players@;
        let mut kept: Vec<RemotePlayer> = Vec::new();
        let mut removed: Vec<Identity> = Vec::new();
        let mut k: usize = 0;
        assert(taken.take(0) =~= Seq::empty());
        while k < self.remote_players.len()
            invariant
                k <= taken.len(),
                self.remote_players@ == taken,
                rows == player_rows(players@),
                kept@ == present(taken.take(k as int), rows),
                removed@ == departures(taken.take(k as int), rows),
            decreases taken.len() - k,
        {
            let remote_player: RemotePlayer = self.remote_players[k];
            proof {
                assert(taken.take(k + 1).drop_last() =~= taken.take(k as int));
                assert(taken.take(k + 1).last() == remote_player);
            }
            if find_player(players, remote_player.identity).is_some() {
                kept.push(remote_player);
            } else {
                removed.push(remote_player.identity);
            }
            k = k + 1;
        }
        assert(taken.take(taken.len() as int) =~= taken);
        self.remote_players = kept;
        proof {
            if roster_identities(start).no_duplicates() {
                lemma_take_in_all_keeps_distinct(start, rows);
                lemma_present_is_subsequence(taken, rows);
            }
        }
        RosterChanges { spawned, removed }
    }

    /// Takes every avatar out of the roster, as when the session is lost,
    /// and says whose avatars they were.
    pub fn clear_remote_players(&mut self) -> (removed: Vec<Identity>)
        ensures
            final(self).remote_players@.len() == 0,
            removed@ == roster_identities(old(self).remote_players@),
            final(self).wf(),
    {
        let mut removed: Vec<Identity> = Vec::new();
        let mut i: usize = 0;
        while i < self.remote_players.len()
            invariant
                i <= self.remote_players@.len(),
                self.remote_players@ == old(self).remote_players@,
                removed@ == roster_identities(self.remote_players@).take(i as int),
            decreases self.remote_players@.len() - i,
        {
            removed.push(self.remote_players[i].identity);
            assert(removed@ =~= roster_identities(self.remote_players@).take(i + 1));
            i = i + 1;
        }
        assert(removed@ =~= roster_identities(self.remote_players@));
        self.remote_players = Vec::new();
        removed
    }

    /// Looks up the avatar of `identity`.
    pub fn find_remote_player(&self, identity: Identity) -> (found: Option<usize>)
        ensures
            match found {
                Some(at) => roster_index(self.remote_players@, identity) == Some(at as int) && at
                    < self.remote_players@.len(),
                None => roster_index(self.remote_players@, identity) is None,
            },
    {
        let mut i: usize = 0;
        while i < self.remote_players.len()
            invariant
                i <= self.remote_players@.len(),
                roster_index(self.remote_players@, identity) == first_index(
                    roster_identities(self.remote_players@),
                    identity,
                    i as int,
                ),
            decreases self.remote_players@.len() - i,
        {
            if self.remote_players[i].identity == identity {
                return Some(i);
            }
            i = i + 1;
        }
        None
    }

    /// Takes the avatar of `player_id` out of the roster, if it has one,
    /// and says whether it had.
    pub fn remove_remote_player(&mut self, player_id: Identity) -> (removed: bool)
        ensures
            match roster_index(old(self).remote_players@, player_id) {
                Some(at) => removed && final(self).remote_players@ == old(
                    self,
                ).remote_players@.remove(at),
                None => !removed && final(self).remote_players@ == old(self).remote_players@,
            },
            old(self).wf() ==> final(self).wf(),
    {
        match self.find_remote_player(player_id) {
            Some(at) => {
                let _ = self.remote_players.remove(at);
                proof {
                    let before = old(self).remote_players@;
                    if roster_identities(before).no_duplicates() {
                        lemma_remove_keeps_distinct(roster_identities(before), at as int);
                        assert(roster_identities(self.remote_players@) =~= roster_identities(
                            before,
                        ).remove(at as int));
                    }
                }
                true
            },
            None => false,
        }
    }
}

impl Default for MultiplayerManager {
    fn default() -> (manager: MultiplayerManager)
        ensures
            manager.remote_players@.len() == 0,
    {
        MultiplayerManager::new()
    }
}

} // verus!
