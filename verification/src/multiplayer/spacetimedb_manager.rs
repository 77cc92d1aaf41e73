//! The session: the connection to the world store together with the login
//! state, and what may be asked of the store in each state.

use crate::characters::entities::coin::CoinNode;
use crate::characters::local_player::LocalPlayerNode;
use crate::errors::RustLibError;
use crate::multiplayer::bootstrap::WorldBootstrap;
use crate::identity::Identity;
use crate::multiplayer::connection_module::{
    action_after, connection_after, phase_after, username_hash, ConnectAction,
    ConnectActionView, ConnectEvent, ConnectPhase, ConnectionModule,
};
use crate::multiplayer::login_module::{ConnectionState, LoginModule};
use crate::server::elements::{DBPlayerState, DbPlayer, DbPlayerView, WorldScene};
use crate::server::setup::MAIN_SCENE_ID;
use crate::server::store::{find_scene, player_rows, scene_index, scene_rows};
use crate::text::decimal;
use crate::vector::{DbVector2, Vector2};
use vstd::prelude::*;
use vstd::string::StringExecFns;

verus! {

/// How the store answered a reducer call.
#[derive(Debug)]
pub enum ReducerStatus {
    Committed,
    /// The reducer refused; holds its message.
    Failed(String),
    OutOfEnergy,
}

/// Whether the store has confirmed the registration of the local player.
#[derive(Debug)]
pub enum RegistrationState {
    NotRegistered,
    Registered,
    /// The store refused; holds the reason.
    RegistrationFailed(String),
}

impl Default for RegistrationState {
    fn default() -> (state: RegistrationState)
        ensures
            state is NotRegistered,
    {
        RegistrationState::NotRegistered
    }
}

impl RegistrationState {
    /// The registration state that an answer to the call to register
    /// leaves: registered when it was committed, failed with the reducer's
    /// message when it was refused, failed with "Out of energy" when the
    /// store had no energy left.
    pub fn from_status(status: ReducerStatus) -> (state: RegistrationState)
        ensures
            match status {
                ReducerStatus::Committed => state is Registered,
                ReducerStatus::Failed(reason) => state
                    matches RegistrationState::RegistrationFailed(kept) && kept@ == reason@,
                ReducerStatus::OutOfEnergy => state
                    matches RegistrationState::RegistrationFailed(kept) && kept@
                    == "Out of energy"@,
            },
    {
        match status {
            ReducerStatus::Committed => RegistrationState::Registered,
            ReducerStatus::Failed(reason) => RegistrationState::RegistrationFailed(reason),
            ReducerStatus::OutOfEnergy => RegistrationState::RegistrationFailed(
                String::from_str("Out of energy"),
            ),
        }
    }
}

/// What came of advancing the connection by one frame.
#[derive(Debug)]
pub enum FrameTick {
    /// The pending messages were taken in.
    Advanced,
    /// The store has closed the connection.
    Disconnected,
    /// The transport failed; holds the reason.
    Failed(String),
}

/// The rows of `rows` that belong to someone else than `own`, in their
/// order.
pub open spec fn other_players(rows: Seq<DbPlayerView>, own: Identity) -> Seq<DbPlayerView>
    decreases rows.len(),
{
    if rows.len() == 0 {
        Seq::empty()
    } else {
        let before = other_players(rows.drop_last(), own);
        if rows.last().identity != own {
            before.push(rows.last())
        } else {
            before
        }
    }
}

/// Whether one of `rows` has the name `name`.
pub open spec fn has_player_named(rows: Seq<DbPlayerView>, name: Seq<char>) -> bool {
    exists|i: int| 0 <= i < rows.len() && (#[trigger] rows[i]).name == name
}

/// The session of one client.
#[derive(Debug)]
pub struct SpacetimeDBManager<C> {
    pub login_module: LoginModule,
    pub connection_module: ConnectionModule<C>,
}

impl<C> SpacetimeDBManager<C> {
    pub fn new() -> (manager: SpacetimeDBManager<C>)
        ensures
            manager.login_module.state is Disconnected,
            manager.login_module.scene_id is None,
            manager.login_module.player_name is None,
            manager.connection_module.connection is None,
            manager.connection_module.phase == ConnectPhase::Idle,
    {
        SpacetimeDBManager {
            connection_module: ConnectionModule::new(),
            login_module: LoginModule::new(),
        }
    }

    /// The tables the session listens to, as the queries to subscribe to,
    /// in the order in which they are subscribed: the coins; the scenes and
    /// the scores, for the score display; the enemies; the scenes, for
    /// bootstrap; and the players.
    pub fn register_subscribers() -> (queries: Vec<String>)
        ensures
            queries@.len() == 6,
            queries@[0]@ == "SELECT * FROM coin"@,
            queries@[1]@ == "SELECT * FROM world_scene"@,
            queries@[2]@ == "SELECT * FROM player_score"@,
            queries@[3]@ == "SELECT * FROM green_slime"@,
            queries@[4]@ == "SELECT * FROM world_scene"@,
            queries@[5]@ == "SELECT * FROM player"@,
    {
        let mut queries: Vec<String> = Vec::new();
        queries.push(CoinNode::setup_multiplayer());
        queries.push(String::from_str("SELECT * FROM world_scene"));
        queries.push(String::from_str("SELECT * FROM player_score"));
        queries.push(String::from_str("SELECT * FROM green_slime"));
        queries.push(WorldBootstrap::setup_multiplayer());
        queries.push(LocalPlayerNode::setup_multiplayer());
        queries
    }

    /// Starts connecting as `username`: the session is `Connecting`, and
    /// the credentials cached for the name are to be read.
    pub fn connect(&mut self, username: &str) -> (action: ConnectAction)
        ensures
            action@ == ConnectActionView::LoadCredentials(
                decimal(username_hash(username@) as nat),
            ),
            final(self).connection_module.phase == ConnectPhase::LoadingCredentials,
            final(self).connection_module.connection == old(self).connection_module.connection,
            final(self).login_module.state is Connecting,
            final(self).login_module.scene_id == old(self).login_module.scene_id,
            final(self).login_module.player_name == old(self).login_module.player_name,
    {
        self.login_module.state = ConnectionState::Connecting;
        self.connection_module.connect(username)
    }

    /// Takes in the outcome of a step of connecting as `username`, and says
    /// what to do next.
    ///
    /// When the connection stands the session is `Connected`, as `username`
    /// in the main scene; the caller then subscribes to the tables.  When
    /// the attempt fails the session is `Disconnected`.  Until then it stays
    /// as it is.
    pub fn connect_event(&mut self, username: &str, event: ConnectEvent<C>) -> (action:
        ConnectAction)
        ensures
            action@ == action_after(old(self).connection_module.phase, event),
            final(self).connection_module.phase == phase_after(
                old(self).connection_module.phase,
                event,
            ),
            final(self).connection_module.connection == connection_after(
                old(self).connection_module.connection,
                old(self).connection_module.phase,
                event,
            ),
            match action@ {
                ConnectActionView::Done => {
                    &&& final(self).login_module.state is Connected
                    &&& final(self).login_module.scene_id == Some(MAIN_SCENE_ID)
                    &&& final(self).login_module.player_name is Some
                    &&& final(self).login_module.player_name->0@ == username@
                },
                ConnectActionView::FailSdk(_) => {
                    &&& final(self).login_module.state is Disconnected
                    &&& final(self).login_module.scene_id == old(self).login_module.scene_id
                    &&& final(self).login_module.player_name == old(
                        self,
                    ).login_module.player_name
                },
                _ => final(self).login_module == old(self).login_module,
            },
    {
        let action = self.connection_module.connect_event(event);
        match &action {
            ConnectAction::Done => {
                self.login_module.set_scene_id(MAIN_SCENE_ID);
                self.login_module.set_player_name(String::from_str(username));
                self.login_module.state = ConnectionState::Connected;
            },
            ConnectAction::Fail(RustLibError::SpacetimeSDK(_)) => {
                self.login_module.state = ConnectionState::Disconnected;
            },
            _ => {},
        }
        action
    }

    pub fn get_connection(&self) -> (result: Result<&C, RustLibError>)
        ensures
            match result {
                Ok(connection) => self.connection_module.connection == Some(*connection),
                Err(error) => self.connection_module.connection is None && (error
                    matches RustLibError::WrongConnectionState(what) && what@
                    == "No connection established."@),
            },
    {
        self.connection_module.get_connection()
    }

    /// Whether the connection is to be advanced this frame: not while the
    /// session is disconnected.  A session that is not disconnected and
    /// holds no connection is in a wrong state.
    pub fn wants_tick(&self) -> (result: Result<bool, RustLibError>)
        ensures
            match result {
                Ok(wanted) => wanted == !(self.login_module.state is Disconnected) && (wanted
                    ==> self.connection_module.connection is Some),
                Err(error) => !(self.login_module.state is Disconnected)
                    && self.connection_module.connection is None && (error
                    matches RustLibError::WrongConnectionState(what) && what@
                    == "No connection established."@),
            },
    {
        match self.login_module.state {
            ConnectionState::Disconnected => Ok(false),
            _ => match self.connection_module.get_connection() {
                Ok(_) => Ok(true),
                Err(error) => Err(error),
            },
        }
    }

    /// Takes in what came of advancing the connection.  A connection that
    /// the store has closed leaves the session disconnected and is no
    /// failure; a failure of the transport is passed on and leaves the
    /// session as it is.
    pub fn tick(&mut self, outcome: FrameTick) -> (result: Result<(), RustLibError>)
        ensures
            final(self).connection_module == old(self).connection_module,
            final(self).login_module.scene_id == old(self).login_module.scene_id,
            final(self).login_module.player_name == old(self).login_module.player_name,
            match outcome {
                FrameTick::Advanced => result is Ok && final(self).login_module.state == old(
                    self,
                ).login_module.state,
                FrameTick::Disconnected => result is Ok
                    && final(self).login_module.state is Disconnected,
                FrameTick::Failed(reason) => final(self).login_module.state == old(
                    self,
                ).login_module.state && (result matches Err(RustLibError::SpacetimeSDK(kept))
                    && kept@ == reason@),
            },
    {
        match outcome {
            FrameTick::Advanced => Ok(()),
            FrameTick::Disconnected => {
                self.login_module.state = ConnectionState::Disconnected;
                Ok(())
            },
            FrameTick::Failed(reason) => Err(RustLibError::SpacetimeSDK(reason)),
        }
    }

    /// The failure to report when the store did not take a reducer call.
    pub fn call_failed(reason: String) -> (error: RustLibError)
        ensures
            error matches RustLibError::SpacetimeSDK(kept) && kept@ == reason@,
    {
        RustLibError::SpacetimeSDK(reason)
    }

    /// Where the avatar of this session appears: the spawn point of its
    /// scene among `scenes`, or nothing if the scene is not among them.
    /// Fails without a connection, and when the session has no scene.
    pub fn get_spawn_point(&self, scenes: &Vec<WorldScene>) -> (result: Result<
        Option<Vector2>,
        RustLibError,
    >)
        ensures
            match result {
                Ok(spawn_point) => {
                    &&& self.connection_module.connection is Some
                    &&& self.login_module.scene_id is Some
                    &&& match scene_index(scene_rows(scenes@), self.login_module.scene_id->0) {
                        Some(scene_at) => spawn_point == Some(
                            Vector2 {
                                x: scenes@[scene_at].spawn_point.x,
                                y: scenes@[scene_at].spawn_point.y,
                            },
                        ),
                        None => spawn_point is None,
                    }
                },
                Err(RustLibError::WrongConnectionState(what)) =>
                    self.connection_module.connection is None && what@
                        == "No connection established."@,
                Err(RustLibError::WorldSetup(what)) => self.connection_module.connection is Some
                    && self.login_module.scene_id is None && what@
                    == "Expected scene id to be in the Login Module."@,
                Err(_) => false,
            },
    {
        match self.connection_module.get_connection() {
            Ok(_) => {},
            Err(error) => {
                return Err(error);
            },
        }
        let scene_id: u32 = match self.login_module.get_scene_id() {
            Some(scene_id) => scene_id,
            None => {
                return Err(
                    RustLibError::WorldSetup(
                        String::from_str("Expected scene id to be in the Login Module."),
                    ),
                );
            },
        };
        match find_scene(scenes, scene_id) {
            Some(scene_at) => Ok(Some(Vector2::from(scenes[scene_at].spawn_point))),
            None => Ok(None),
        }
    }

    /// Logs the session in once the store has confirmed the registration.
    /// Returns whether it is logged in now.  A registration that the store
    /// refused leaves the session failed, with the store's reason.
    pub fn check_and_login(&mut self, registration_state: &RegistrationState) -> (logged_in: bool)
        ensures
            logged_in == (registration_state is Registered),
            final(self).connection_module == old(self).connection_module,
            final(self).login_module.scene_id == old(self).login_module.scene_id,
            final(self).login_module.player_name == old(self).login_module.player_name,
            match registration_state {
                RegistrationState::NotRegistered => final(self).login_module.state == old(
                    self,
                ).login_module.state,
                RegistrationState::Registered => final(self).login_module.state is LoggedIn,
                RegistrationState::RegistrationFailed(reason) => final(self).login_module.state
                    matches ConnectionState::LoginFailed(kept) && kept@ == reason@,
            },
    {
        match registration_state {
            RegistrationState::NotRegistered => false,
            RegistrationState::Registered => {
                self.login_module.state = ConnectionState::LoggedIn;
                true
            },
            RegistrationState::RegistrationFailed(reason) => {
                self.login_module.state = ConnectionState::LoginFailed(reason.clone());
                false
            },
        }
    }

    /// Whether a player named `username` is in the game, going by the rows
    /// `players`.  Without a connection nobody is.
    pub fn is_player_logged_in(&self, players: &Vec<DbPlayer>, username: &str) -> (found: bool)
        ensures
            found == (self.connection_module.connection is Some && has_player_named(
                player_rows(players@),
                username@,
            )),
    {
        if self.connection_module.get_connection().is_err() {
            return false;
        }
        let name: String = String::from_str(username);
        let mut i: usize = 0;
        while i < players.len()
            invariant
                i <= players@.len(),
                name@ == username@,
                self.connection_module.connection is Some,
                forall|k: int| 0 <= k < i ==> (#[trigger] player_rows(players@)[k]).name != name@,
            decreases players@.len() - i,
        {
            if players[i].name == name {
                assert(player_rows(players@)[i as int].name == username@);
                return true;
            }
            i = i + 1;
        }
        false
    }

    /// The rows of `players` that belong to other clients than `own`, in
    /// their order.  Fails without a connection.
    pub fn get_other_players(&self, players: &Vec<DbPlayer>, own: Identity) -> (result: Result<
        Vec<DbPlayer>,
        RustLibError,
    >)
        ensures
            match result {
                Ok(others) => self.connection_module.connection is Some && player_rows(others@)
                    == other_players(player_rows(players@), own),
                Err(error) => self.connection_module.connection is None && (error
                    matches RustLibError::WrongConnectionState(what) && what@
                    == "No connection established."@),
            },
    {
        match self.connection_module.get_connection() {
            Ok(_) => {},
            Err(error) => {
                return Err(error);
            },
        }
        let mut others: Vec<DbPlayer> = Vec::new();
        let mut i: usize = 0;
        assert(player_rows(players@).take(0) =~= Seq::empty());
        assert(player_rows(others@) =~= Seq::empty());
        while i < players.len()
            invariant
                i <= players@.len(),
                player_rows(others@) == other_players(player_rows(players@).take(i as int), own),
            decreases players@.len() - i,
        {
            let ghost before = player_rows(others@);
            proof {
                let rows = player_rows(players@);
                assert(rows.take(i + 1).drop_last() =~= rows.take(i as int));
                assert(rows.take(i + 1).last() == players@[i as int]@);
            }
            if players[i].identity != own {
                others.push(
                    DbPlayer {
                        identity: players[i].identity,
                        player_id: players[i].player_id,
                        name: players[i].name.clone(),
                        state: players[i].state,
                    },
                );
                assert(player_rows(others@) =~= before.push(players@[i as int]@));
            }
            i = i + 1;
        }
        assert(player_rows(players@).take(players@.len() as int) =~= player_rows(players@));
        Ok(others)
    }

    /// The connection to report a movement update on, with the update.
    /// Fails unless the session is logged in and holds a connection.
    pub fn send_inputs(&self, state: DBPlayerState) -> (result: Result<
        (&C, DBPlayerState),
        RustLibError,
    >)
        ensures
            match result {
                Ok((connection, update)) => self.login_module.state is LoggedIn
                    && self.connection_module.connection == Some(*connection) && update == state,
                Err(error) => error matches RustLibError::WrongConnectionState(what) && (
                if self.login_module.state is LoggedIn {
                    self.connection_module.connection is None && what@
                        == "No connection established."@
                } else {
                    what@ == "Unexpected function call on non-logged in state"@
                }),
            },
    {
        match self.login_module.require_logged_in() {
            Ok(_) => {},
            Err(error) => {
                return Err(error);
            },
        }
        match self.connection_module.get_connection() {
            Ok(connection) => Ok((connection, state)),
            Err(error) => Err(error),
        }
    }

    /// The connection to ask for a coin on, with the position of the coin
    /// as the store keeps it.  Fails unless the session is logged in and
    /// holds a connection.
    pub fn collect_coin_at_position(&self, position: Vector2) -> (result: Result<
        (&C, DbVector2),
        RustLibError,
    >)
        ensures
            match result {
                Ok((connection, db_position)) => self.login_module.state is LoggedIn
                    && self.connection_module.connection == Some(*connection) && db_position == (
                    DbVector2 { x: position.x, y: position.y }),
                Err(error) => error matches RustLibError::WrongConnectionState(what) && (
                if self.login_module.state is LoggedIn {
                    self.connection_module.connection is None && what@
                        == "No connection established."@
                } else {
                    what@ == "Unexpected function call on non-logged in state"@
                }),
            },
    {
        match self.login_module.require_logged_in() {
            Ok(_) => {},
            Err(error) => {
                return Err(error);
            },
        }
        match self.connection_module.get_connection() {
            Ok(connection) => Ok((connection, DbVector2 { x: position.x, y: position.y })),
            Err(error) => Err(error),
        }
    }
}

impl<C> Default for SpacetimeDBManager<C> {
    fn default() -> (manager: SpacetimeDBManager<C>)
        ensures
            manager.login_module.state is Disconnected,
            manager.connection_module.connection is None,
    {
        SpacetimeDBManager::new()
    }
}

} // verus!
