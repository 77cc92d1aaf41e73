//! The tables of the world store and the context of one reducer call.

use crate::identity::{Identity, Timestamp};
use crate::server::elements::{
    Coin, DbPlayer, DbPlayerView, PlayerScore, WorldScene, WorldSceneView,
};
use crate::vector::DbVector2;
use vstd::prelude::*;
use vstd::string::StringExecFns;

verus! {

/// A table whose rows get their number from the store.
#[derive(Clone, Copy, Debug, PartialEq, Eq, Structural)]
pub enum Table {
    WorldScene,
    Player,
    LoggedOutPlayer,
    Coin,
    PlayerScore,
}

/// What is wrong with a name.
#[derive(Clone, Copy, Debug, PartialEq, Eq, Structural)]
pub enum NameFault {
    /// Nothing is left of it once surrounding white space is removed.
    Empty,
    /// It is longer than the table allows.
    TooLong,
}

/// Why a reducer refused a request.  A refused request changes nothing.
#[derive(Clone, Copy, Debug, PartialEq, Eq, Structural)]
pub enum ReducerError {
    /// The caller already has a player row.
    AlreadyRegistered,
    /// No scene has the id that was asked for.
    SceneNotFound,
    /// The player name is not acceptable.
    InvalidName(NameFault),
    /// The scene name is not acceptable.
    InvalidSceneName(NameFault),
    /// The caller has no player row.
    NotRegistered,
    /// No coin lies at the position.
    CoinNotFound,
    /// The coin at the position has a collector already.
    AlreadyCollected,
    /// A client connected whose player row is still in the game.
    AlreadyInGame,
    /// The table cannot take the row: it has run out of row numbers, or
    /// holds a row with the same key.
    InsertFailed(Table),
}

impl ReducerError {
    pub open spec fn message_spec(self) -> Seq<char> {
        match self {
            ReducerError::AlreadyRegistered => "Player already registered"@,
            ReducerError::SceneNotFound => "Scene does not exist"@,
            ReducerError::InvalidName(NameFault::Empty) => "Name cannot be empty"@,
            ReducerError::InvalidName(NameFault::TooLong) => "Name too long (max 20 characters)"@,
            ReducerError::InvalidSceneName(NameFault::Empty) => "Scene name cannot be empty"@,
            ReducerError::InvalidSceneName(NameFault::TooLong) =>
                "Scene name too long (max 50 characters)"@,
            ReducerError::NotRegistered => "Player not registered"@,
            ReducerError::CoinNotFound => "Coin not found at this position"@,
            ReducerError::AlreadyCollected => "Coin already collected"@,
            ReducerError::AlreadyInGame => "Player already in the game"@,
            ReducerError::InsertFailed(Table::WorldScene) => "Failed to register scene"@,
            ReducerError::InsertFailed(Table::Player) => "Failed to register player"@,
            ReducerError::InsertFailed(Table::LoggedOutPlayer) => "Failed to log player out"@,
            ReducerError::InsertFailed(Table::Coin) => "Failed to register coin"@,
            ReducerError::InsertFailed(Table::PlayerScore) => "Failed to record score"@,
        }
    }

    /// The text the caller is shown.
    pub fn message(&self) -> (text: String)
        ensures
            text@ == self.message_spec(),
    {
        match self {
            ReducerError::AlreadyRegistered => String::from_str("Player already registered"),
            ReducerError::SceneNotFound => String::from_str("Scene does not exist"),
            ReducerError::InvalidName(NameFault::Empty) => String::from_str(
                "Name cannot be empty",
            ),
            ReducerError::InvalidName(NameFault::TooLong) => String::from_str(
                "Name too long (max 20 characters)",
            ),
            ReducerError::InvalidSceneName(NameFault::Empty) => String::from_str(
                "Scene name cannot be empty",
            ),
            ReducerError::InvalidSceneName(NameFault::TooLong) => String::from_str(
                "Scene name too long (max 50 characters)",
            ),
            ReducerError::NotRegistered => String::from_str("Player not registered"),
            ReducerError::CoinNotFound => String::from_str("Coin not found at this position"),
            ReducerError::AlreadyCollected => String::from_str("Coin already collected"),
            ReducerError::AlreadyInGame => String::from_str("Player already in the game"),
            ReducerError::InsertFailed(Table::WorldScene) => String::from_str(
                "Failed to register scene",
            ),
            ReducerError::InsertFailed(Table::Player) => String::from_str(
                "Failed to register player",
            ),
            ReducerError::InsertFailed(Table::LoggedOutPlayer) => String::from_str(
                "Failed to log player out",
            ),
            ReducerError::InsertFailed(Table::Coin) => String::from_str("Failed to register coin"),
            ReducerError::InsertFailed(Table::PlayerScore) => String::from_str(
                "Failed to record score",
            ),
        }
    }
}

/// Index of the first of `keys` at or after `from` that equals `key`.
pub open spec fn first_index<K>(keys: Seq<K>, key: K, from: int) -> Option<int>
    decreases keys.len() - from,
{
    if 0 <= from < keys.len() {
        if keys[from] == key {
            Some(from)
        } else {
            first_index(keys, key, from + 1)
        }
    } else {
        None
    }
}

/// What [`first_index`] finds is in range, matches, and is the first match;
/// when it finds nothing there is no match.
pub proof fn lemma_first_index<K>(keys: Seq<K>, key: K, from: int)
    requires
        0 <= from,
    ensures
        match first_index(keys, key, from) {
            Some(i) => from <= i < keys.len() && keys[i] == key && forall|j: int|
                from <= j < i ==> #[trigger] keys[j] != key,
            None => forall|j: int| from <= j < keys.len() ==> #[trigger] keys[j] != key,
        },
    decreases keys.len() - from,
{
    if from < keys.len() && keys[from] != key {
        lemma_first_index(keys, key, from + 1);
    }
}

/// Where something lies in `keys` at or after `from`, given that it lies at
/// `i` and nowhere before.
pub proof fn lemma_first_index_is<K>(keys: Seq<K>, key: K, from: int, i: int)
    requires
        0 <= from <= i < keys.len(),
        keys[i] == key,
        forall|j: int| from <= j < i ==> #[trigger] keys[j] != key,
    ensures
        first_index(keys, key, from) == Some(i),
    decreases i - from,
{
    if from < i {
        lemma_first_index_is(keys, key, from + 1, i);
    }
}

/// A key that is not among `keys` can be appended without making a
/// duplicate.
pub proof fn lemma_push_fresh_key<K>(keys: Seq<K>, key: K)
    requires
        keys.no_duplicates(),
        first_index(keys, key, 0) is None,
    ensures
        keys.push(key).no_duplicates(),
{
    lemma_first_index(keys, key, 0);
}

/// Removing one of a list of distinct keys leaves distinct keys.
pub proof fn lemma_remove_keeps_distinct<K>(keys: Seq<K>, at: int)
    requires
        keys.no_duplicates(),
        0 <= at < keys.len(),
    ensures
        keys.remove(at).no_duplicates(),
{
    let rest = keys.remove(at);
    assert forall|i: int, j: int| 0 <= i < rest.len() && 0 <= j < rest.len() && i != j implies rest[i]
        != rest[j] by {
        let from_i = if i < at {
            i
        } else {
            i + 1
        };
        let from_j = if j < at {
            j
        } else {
            j + 1
        };
        assert(rest[i] == keys[from_i]);
        assert(rest[j] == keys[from_j]);
    }
}

pub open spec fn scene_rows(scenes: Seq<WorldScene>) -> Seq<WorldSceneView> {
    Seq::new(scenes.len(), |i: int| scenes[i]@)
}

pub open spec fn player_rows(players: Seq<DbPlayer>) -> Seq<DbPlayerView> {
    Seq::new(players.len(), |i: int| players[i]@)
}

pub open spec fn scene_ids(scenes: Seq<WorldSceneView>) -> Seq<u32> {
    Seq::new(scenes.len(), |i: int| scenes[i].scene_id)
}

pub open spec fn scene_names(scenes: Seq<WorldSceneView>) -> Seq<Seq<char>> {
    Seq::new(scenes.len(), |i: int| scenes[i].name)
}

pub open spec fn player_identities(players: Seq<DbPlayerView>) -> Seq<Identity> {
    Seq::new(players.len(), |i: int| players[i].identity)
}

pub open spec fn player_ids(players: Seq<DbPlayerView>) -> Seq<u32> {
    Seq::new(players.len(), |i: int| players[i].player_id)
}

pub open spec fn coin_ids(coins: Seq<Coin>) -> Seq<u64> {
    Seq::new(coins.len(), |i: int| coins[i].coin_id)
}

pub open spec fn coin_positions(coins: Seq<Coin>) -> Seq<DbVector2> {
    Seq::new(coins.len(), |i: int| coins[i].position)
}

pub open spec fn score_identities(scores: Seq<PlayerScore>) -> Seq<Identity> {
    Seq::new(scores.len(), |i: int| scores[i].player_identity)
}

pub open spec fn score_ids(scores: Seq<PlayerScore>) -> Seq<u64> {
    Seq::new(scores.len(), |i: int| scores[i].score_id)
}

/// Index of the scene with the given id.
pub open spec fn scene_index(scenes: Seq<WorldSceneView>, scene_id: u32) -> Option<int> {
    first_index(scene_ids(scenes), scene_id, 0)
}

/// Index of the first scene with the given name.
pub open spec fn scene_index_by_name(scenes: Seq<WorldSceneView>, name: Seq<char>) -> Option<int> {
    first_index(scene_names(scenes), name, 0)
}

/// Index of the row of the given identity.
pub open spec fn player_index(players: Seq<DbPlayerView>, identity: Identity) -> Option<int> {
    first_index(player_identities(players), identity, 0)
}

/// Index of the coin that lies at the given position.
pub open spec fn coin_index(coins: Seq<Coin>, position: DbVector2) -> Option<int> {
    first_index(coin_positions(coins), position, 0)
}

/// Index of the score of the given identity.
pub open spec fn score_index(scores: Seq<PlayerScore>, identity: Identity) -> Option<int> {
    first_index(score_identities(scores), identity, 0)
}

/// What an executable search reports, against what the tables hold.
pub open spec fn found_at(found: Option<usize>, index: Option<int>) -> bool {
    match found {
        Some(i) => index == Some(i as int),
        None => index is None,
    }
}

/// The world store.  Each table is a list of rows in the order they were
/// inserted; the `next_*` fields are the numbers the next inserted rows get.
#[derive(Debug)]
pub struct World {
    pub scenes: Vec<WorldScene>,
    pub players: Vec<DbPlayer>,
    /// Rows of players that have disconnected.
    pub logged_out_players: Vec<DbPlayer>,
    pub coins: Vec<Coin>,
    pub scores: Vec<PlayerScore>,
    pub next_scene_id: u32,
    pub next_player_id: u32,
    pub next_coin_id: u64,
    pub next_score_id: u64,
}

/// The store as the contracts see it.
pub struct WorldView {
    pub scenes: Seq<WorldSceneView>,
    pub players: Seq<DbPlayerView>,
    pub logged_out_players: Seq<DbPlayerView>,
    pub coins: Seq<Coin>,
    pub scores: Seq<PlayerScore>,
    pub next_scene_id: u32,
    pub next_player_id: u32,
    pub next_coin_id: u64,
    pub next_score_id: u64,
}

impl View for World {
    type V = WorldView;

    open spec fn view(&self) -> WorldView {
        WorldView {
            scenes: scene_rows(self.scenes@),
            players: player_rows(self.players@),
            logged_out_players: player_rows(self.logged_out_players@),
            coins: self.coins@,
            scores: self.scores@,
            next_scene_id: self.next_scene_id,
            next_player_id: self.next_player_id,
            next_coin_id: self.next_coin_id,
            next_score_id: self.next_score_id,
        }
    }
}

/// The context of one reducer call: who calls, when, and the store.
#[derive(Debug)]
pub struct ReducerContext {
    pub sender: Identity,
    pub timestamp: Timestamp,
    pub db: World,
}

impl WorldView {
    /// The invariants of the tables:
    /// scene ids, player identities, player ids, coin ids, coin positions,
    /// score ids and score identities each occur once in their table, and
    /// so does each identity among the logged-out players; and every number
    /// that the store has assigned lies below the next one it will assign.
    pub open spec fn wf(self) -> bool {
        &&& scene_ids(self.scenes).no_duplicates()
        &&& player_identities(self.players).no_duplicates()
        &&& player_ids(self.players).no_duplicates()
        &&& player_identities(self.logged_out_players).no_duplicates()
        &&& coin_ids(self.coins).no_duplicates()
        &&& coin_positions(self.coins).no_duplicates()
        &&& score_ids(self.scores).no_duplicates()
        &&& score_identities(self.scores).no_duplicates()
        &&& forall|i: int|
            0 <= i < self.scenes.len() ==> (#[trigger] self.scenes[i]).scene_id
                < self.next_scene_id
        &&& forall|i: int|
            0 <= i < self.players.len() ==> (#[trigger] self.players[i]).player_id
                < self.next_player_id
        &&& forall|i: int|
            0 <= i < self.coins.len() ==> (#[trigger] self.coins[i]).coin_id < self.next_coin_id
        &&& forall|i: int|
            0 <= i < self.scores.len() ==> (#[trigger] self.scores[i]).score_id
                < self.next_score_id
    }

    /// The store before anything was inserted.
    pub open spec fn empty() -> WorldView {
        WorldView {
            scenes: Seq::empty(),
            players: Seq::empty(),
            logged_out_players: Seq::empty(),
            coins: Seq::empty(),
            scores: Seq::empty(),
            next_scene_id: 1,
            next_player_id: 1,
            next_coin_id: 1,
            next_score_id: 1,
        }
    }
}

impl World {
    /// A store with no rows, that numbers its rows from 1.
    pub fn new() -> (world: World)
        ensures
            world@ == WorldView::empty(),
            world@.wf(),
    {
        let world = World {
            scenes: Vec::new(),
            players: Vec::new(),
            logged_out_players: Vec::new(),
            coins: Vec::new(),
            scores: Vec::new(),
            next_scene_id: 1,
            next_player_id: 1,
            next_coin_id: 1,
            next_score_id: 1,
        };
        proof {
            assert(world@.scenes =~= Seq::empty());
            assert(world@.players =~= Seq::empty());
            assert(world@.logged_out_players =~= Seq::empty());
        }
        world
    }
}

impl Default for World {
    fn default() -> (world: World)
        ensures
            world@ == WorldView::empty(),
    {
        World::new()
    }
}

impl ReducerContext {
    pub fn new(sender: Identity, timestamp: Timestamp, db: World) -> (ctx: ReducerContext)
        ensures
            ctx.sender == sender,
            ctx.timestamp == timestamp,
            ctx.db == db,
    {
        ReducerContext { sender, timestamp, db }
    }
}

/// Looks up the scene with the given id.
pub fn find_scene(scenes: &Vec<WorldScene>, scene_id: u32) -> (found: Option<usize>)
    ensures
        found_at(found, scene_index(scene_rows(scenes@), scene_id)),
        found is Some ==> found->0 < scenes@.len() && scenes@[found->0 as int].scene_id
            == scene_id,
{
    let mut i: usize = 0;
    while i < scenes.len()
        invariant
            i <= scenes@.len(),
            scene_index(scene_rows(scenes@), scene_id) == first_index(
                scene_ids(scene_rows(scenes@)),
                scene_id,
                i as int,
            ),
        decreases scenes@.len() - i,
    {
        if scenes[i].scene_id == scene_id {
            return Some(i);
        }
        i = i + 1;
    }
    None
}

/// Looks up the first scene with the given name.
pub fn find_scene_by_name(scenes: &Vec<WorldScene>, name: &String) -> (found: Option<usize>)
    ensures
        found_at(found, scene_index_by_name(scene_rows(scenes@), name@)),
        found is Some ==> found->0 < scenes@.len() && scenes@[found->0 as int].name@ == name@,
{
    let mut i: usize = 0;
    while i < scenes.len()
        invariant
            i <= scenes@.len(),
            scene_index_by_name(scene_rows(scenes@), name@) == first_index(
                scene_names(scene_rows(scenes@)),
                name@,
                i as int,
            ),
        decreases scenes@.len() - i,
    {
        if scenes[i].name == *name {
            return Some(i);
        }
        i = i + 1;
    }
    None
}

/// Looks up the row of the given identity.
pub fn find_player(players: &Vec<DbPlayer>, identity: Identity) -> (found: Option<usize>)
    ensures
        found_at(found, player_index(player_rows(players@), identity)),
        found is Some ==> found->0 < players@.len() && players@[found->0 as int].identity
            == identity,
{
    let mut i: usize = 0;
    while i < players.len()
        invariant
            i <= players@.len(),
            player_index(player_rows(players@), identity) == first_index(
                player_identities(player_rows(players@)),
                identity,
                i as int,
            ),
        decreases players@.len() - i,
    {
        if players[i].identity == identity {
            return Some(i);
        }
        i = i + 1;
    }
    None
}

/// Looks up the coin that lies at the given position.
pub fn find_coin(coins: &Vec<Coin>, position: DbVector2) -> (found: Option<usize>)
    ensures
        found_at(found, coin_index(coins@, position)),
        found is Some ==> found->0 < coins@.len() && coins@[found->0 as int].position == position,
{
    let mut i: usize = 0;
    while i < coins.len()
        invariant
            i <= coins@.len(),
            coin_index(coins@, position) == first_index(coin_positions(coins@), position, i as int),
        decreases coins@.len() - i,
    {
        if coins[i].position == position {
            return Some(i);
        }
        i = i + 1;
    }
    None
}

/// Looks up the score of the given identity.
pub fn find_score(scores: &Vec<PlayerScore>, identity: Identity) -> (found: Option<usize>)
    ensures
        found_at(found, score_index(scores@, identity)),
        found is Some ==> found->0 < scores@.len() && scores@[found->0 as int].player_identity
            == identity,
{
    let mut i: usize = 0;
    while i < scores.len()
        invariant
            i <= scores@.len(),
            score_index(scores@, identity) == first_index(
                score_identities(scores@),
                identity,
                i as int,
            ),
        decreases scores@.len() - i,
    {
        if scores[i].player_identity == identity {
            return Some(i);
        }
        i = i + 1;
    }
    None
}

} // verus!
