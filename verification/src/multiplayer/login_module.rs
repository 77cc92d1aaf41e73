//! The login state of the session.

use crate::errors::RustLibError;
use vstd::prelude::*;
use vstd::string::StringExecFns;

verus! {

/// Where the session stands.  A session starts `Disconnected`, is
/// `Connecting` while the link is being set up, `Connected` once it is, and
/// `LoggedIn` after the store has confirmed the registration;
/// `LoginFailed` holds the reason the store gave for refusing it.
#[derive(Clone, Debug)]
pub enum ConnectionState {
    Disconnected,
    Connecting,
    Connected,
    LoggedIn,
    LoginFailed(String),
}

/// A connection state as the contracts see it: a reason is its characters.
pub enum ConnectionStateView {
    Disconnected,
    Connecting,
    Connected,
    LoggedIn,
    LoginFailed(Seq<char>),
}

impl View for ConnectionState {
    type V = ConnectionStateView;

    open spec fn view(&self) -> ConnectionStateView {
        match self {
            ConnectionState::Disconnected => ConnectionStateView::Disconnected,
            ConnectionState::Connecting => ConnectionStateView::Connecting,
            ConnectionState::Connected => ConnectionStateView::Connected,
            ConnectionState::LoggedIn => ConnectionStateView::LoggedIn,
            ConnectionState::LoginFailed(reason) => ConnectionStateView::LoginFailed(reason@),
        }
    }
}

impl Default for ConnectionState {
    fn default() -> (state: ConnectionState)
        ensures
            state is Disconnected,
    {
        ConnectionState::Disconnected
    }
}

/// Login state of one session, with the name and scene the player chose.
#[derive(Debug)]
pub struct LoginModule {
    pub state: ConnectionState,
    pub scene_id: Option<u32>,
    pub player_name: Option<String>,
}

impl LoginModule {
    pub fn new() -> (module: LoginModule)
        ensures
            module.state is Disconnected,
            module.scene_id is None,
            module.player_name is None,
    {
        LoginModule { state: ConnectionState::Disconnected, scene_id: None, player_name: None }
    }

    pub fn set_player_name(&mut self, player_name: String)
        ensures
            final(self).player_name == Some(player_name),
            final(self).state == old(self).state,
            final(self).scene_id == old(self).scene_id,
    {
        self.player_name = Some(player_name);
    }

    pub fn set_scene_id(&mut self, scene_id: u32)
        ensures
            final(self).scene_id == Some(scene_id),
            final(self).state == old(self).state,
            final(self).player_name == old(self).player_name,
    {
        self.scene_id = Some(scene_id);
    }

    pub fn get_state(&self) -> (state: &ConnectionState)
        ensures
            *state == self.state,
    {
        &self.state
    }

    /// Write access to the state; the name and scene stay as they are.
    pub fn get_state_mut(&mut self) -> (state: &mut ConnectionState)
        ensures
            *state == old(self).state,
            final(self).state == *final(state),
            final(self).scene_id == old(self).scene_id,
            final(self).player_name == old(self).player_name,
    {
        &mut self.state
    }

    pub fn get_scene_id(&self) -> (scene_id: Option<u32>)
        ensures
            scene_id == self.scene_id,
    {
        self.scene_id
    }

    pub fn get_player_name(&self) -> (name: Option<&str>)
        ensures
            name is Some <==> self.player_name is Some,
            name is Some ==> name->0@ == self.player_name->0@,
    {
        match &self.player_name {
            Some(name) => Some(name.as_str()),
            None => None,
        }
    }

    /// Succeeds exactly when the session is logged in.
    pub fn require_logged_in(&self) -> (result: Result<(), RustLibError>)
        ensures
            result is Ok <==> self.state is LoggedIn,
            result is Err ==> (result->Err_0 matches RustLibError::WrongConnectionState(what)
                && what@ == "Unexpected function call on non-logged in state"@),
    {
        match self.state {
            ConnectionState::LoggedIn => Ok(()),
            _ => Err(
                RustLibError::WrongConnectionState(
                    String::from_str("Unexpected function call on non-logged in state"),
                ),
            ),
        }
    }
}

impl Default for LoginModule {
    fn default() -> (module: LoginModule)
        ensures
            module.state is Disconnected,
            module.scene_id is None,
            module.player_name is None,
    {
        LoginModule::new()
    }
}

} // verus!
