//! The login screen: what it shows while the session comes up.

use crate::errors::RustLibError;
use crate::multiplayer::level_manager::LevelManager;
use crate::multiplayer::login_module::{ConnectionState, ConnectionStateView};
use crate::text::{trim, trimmed};
use vstd::prelude::*;
use vstd::string::{StrSliceExecFns, StringExecFns};

verus! {

/// Where the login screen stands.
#[derive(Debug)]
pub enum LoginUIState {
    Initial,
    LoginAttempted,
    Connecting,
    Connected,
    LoggedIn,
    /// Login has failed; holds what to show.
    Failed(String),
}

/// A state of the login screen as the contracts see it.
pub enum LoginUIStateView {
    Initial,
    LoginAttempted,
    Connecting,
    Connected,
    LoggedIn,
    Failed(Seq<char>),
}

impl View for LoginUIState {
    type V = LoginUIStateView;

    open spec fn view(&self) -> LoginUIStateView {
        match self {
            LoginUIState::Initial => LoginUIStateView::Initial,
            LoginUIState::LoginAttempted => LoginUIStateView::LoginAttempted,
            LoginUIState::Connecting => LoginUIStateView::Connecting,
            LoginUIState::Connected => LoginUIStateView::Connected,
            LoginUIState::LoggedIn => LoginUIStateView::LoggedIn,
            LoginUIState::Failed(error) => LoginUIStateView::Failed(error@),
        }
    }
}

impl Default for LoginUIState {
    fn default() -> (state: LoginUIState)
        ensures
            state@ == LoginUIStateView::Initial,
    {
        LoginUIState::Initial
    }
}

/// What a frame found out about the session.
#[derive(Debug)]
pub enum FrameReport {
    /// The session could not be had.
    NoSession,
    /// Advancing the connection failed; holds the message of the failure.
    TickFailed(String),
    /// The connection was advanced.  Holds the state of the session before
    /// the check for the registration, and whether that check has logged
    /// the session in.
    Ticked(ConnectionState, bool),
}

/// The status line for a state of the screen.
pub open spec fn status_of(state: LoginUIStateView) -> Seq<char> {
    match state {
        LoginUIStateView::Initial => "Enter username and click login"@,
        LoginUIStateView::LoginAttempted => "Initializing connection..."@,
        LoginUIStateView::Connecting => "Connecting to database..."@,
        LoginUIStateView::Connected => "Connected! Registering player..."@,
        LoginUIStateView::LoggedIn => "Login successful! Entering game..."@,
        LoginUIStateView::Failed(error) => error,
    }
}

/// The state of the screen after a frame.
///
/// Without a session, a login that was just attempted has failed.  A
/// failure to advance the connection fails a login that has not connected
/// yet.  Otherwise the screen follows the session: it shows it connected or
/// logged in; a session that is disconnected after login was tried, or
/// whose registration was refused, has failed, and a failure that is shown
/// stays.
pub open spec fn ui_state_after(state: LoginUIStateView, report: FrameReport) -> LoginUIStateView {
    match report {
        FrameReport::NoSession => if state is LoginAttempted {
            LoginUIStateView::Failed("Could not get database connection!"@)
        } else {
            state
        },
        FrameReport::TickFailed(error) => if state is LoginAttempted || state is Connecting {
            LoginUIStateView::Failed("Connection error: "@ + error@)
        } else {
            state
        },
        FrameReport::Ticked(login_state, _) => match login_state@ {
            ConnectionStateView::Disconnected => if state is Initial {
                state
            } else {
                LoginUIStateView::Failed("Tried to connect to db, change username please"@)
            },
            ConnectionStateView::Connecting => state,
            ConnectionStateView::Connected => LoginUIStateView::Connected,
            ConnectionStateView::LoggedIn => LoginUIStateView::LoggedIn,
            ConnectionStateView::LoginFailed(error) => if state is Failed {
                state
            } else {
                LoginUIStateView::Failed(error)
            },
        },
    }
}

/// Whether the game is entered after a frame: the frame has logged the
/// session in.
pub open spec fn enters_game(report: FrameReport) -> bool {
    report matches FrameReport::Ticked(_, true)
}

/// The login screen.
#[derive(Debug)]
pub struct LoginScreen {
    pub ui_state: LoginUIState,
    pub level_manager: LevelManager,
}

impl LoginScreen {
    pub fn new() -> (screen: LoginScreen)
        ensures
            screen.ui_state@ == LoginUIStateView::Initial,
    {
        LoginScreen { level_manager: LevelManager::new(), ui_state: LoginUIState::Initial }
    }

    /// The status line to show.
    pub fn update_status_from_state(&self) -> (message: String)
        ensures
            message@ == status_of(self.ui_state@),
    {
        match &self.ui_state {
            LoginUIState::Initial => String::from_str("Enter username and click login"),
            LoginUIState::LoginAttempted => String::from_str("Initializing connection..."),
            LoginUIState::Connecting => String::from_str("Connecting to database..."),
            LoginUIState::Connected => String::from_str("Connected! Registering player..."),
            LoginUIState::LoggedIn => String::from_str("Login successful! Entering game..."),
            LoginUIState::Failed(error) => error.clone(),
        }
    }

    /// Fails the login with `error` as what to show.
    pub fn update_status_with_failed_state(&mut self, error: &str)
        ensures
            final(self).ui_state@ == LoginUIStateView::Failed(error@),
            final(self).level_manager == old(self).level_manager,
    {
        self.ui_state = LoginUIState::Failed(String::from_str(error));
    }

    /// One frame of the screen.  Returns the scene to enter, if the game is
    /// entered now.
    pub fn process(&mut self, report: FrameReport) -> (entered: Option<String>)
        ensures
            final(self).ui_state@ == ui_state_after(old(self).ui_state@, report),
            final(self).level_manager == old(self).level_manager,
            entered is Some <==> enters_game(report),
            entered is Some ==> entered->0@ == "res://scenes/world/entry.tscn"@,
    {
        match report {
            FrameReport::NoSession => {
                if let LoginUIState::LoginAttempted = self.ui_state {
                    self.update_status_with_failed_state("Could not get database connection!");
                }
                None
            },
            FrameReport::TickFailed(error) => {
                let fails: bool = match self.ui_state {
                    LoginUIState::LoginAttempted => true,
                    LoginUIState::Connecting => true,
                    _ => false,
                };
                if fails {
                    self.ui_state = LoginUIState::Failed(
                        String::from_str("Connection error: ").concat(error.as_str()),
                    );
                }
                None
            },
            FrameReport::Ticked(login_state, logged_in) => {
                match login_state {
                    ConnectionState::Disconnected => {
                        let tried: bool = match self.ui_state {
                            LoginUIState::Initial => false,
                            _ => true,
                        };
                        if tried {
                            self.update_status_with_failed_state(
                                "Tried to connect to db, change username please",
                            );
                        }
                    },
                    ConnectionState::Connecting => {},
                    ConnectionState::Connected => {
                        self.ui_state = LoginUIState::Connected;
                    },
                    ConnectionState::LoggedIn => {
                        self.ui_state = LoginUIState::LoggedIn;
                    },
                    ConnectionState::LoginFailed(error) => {
                        let shown: bool = match self.ui_state {
                            LoginUIState::Failed(_) => true,
                            _ => false,
                        };
                        if !shown {
                            self.ui_state = LoginUIState::Failed(error);
                        }
                    },
                }
                if logged_in {
                    Some(self.level_manager.get_entry_scene_path())
                } else {
                    None
                }
            },
        }
    }

    /// The login button was pressed with `username` in the name field.
    /// Returns whether login goes on: a name that is empty after trimming
    /// fails it at once.
    pub fn on_login_pressed(&mut self, username: &str) -> (goes_on: bool)
        ensures
            goes_on == (trimmed(username@).len() > 0),
            final(self).ui_state@ == if goes_on {
                LoginUIStateView::LoginAttempted
            } else {
                LoginUIStateView::Failed("Please enter a username"@)
            },
            final(self).level_manager == old(self).level_manager,
    {
        if trim(username).unicode_len() == 0 {
            self.update_status_with_failed_state("Please enter a username");
            return false;
        }
        self.ui_state = LoginUIState::LoginAttempted;
        true
    }

    /// The session was had and connecting starts.
    pub fn on_connecting(&mut self)
        ensures
            final(self).ui_state@ == LoginUIStateView::Connecting,
            final(self).level_manager == old(self).level_manager,
    {
        self.ui_state = LoginUIState::Connecting;
    }

    /// Connecting has ended.  Returns whether login goes on, with the
    /// registration of the player.
    pub fn on_connect_finished(&mut self, result: Result<(), RustLibError>) -> (goes_on: bool)
        ensures
            goes_on == (result is Ok),
            final(self).ui_state@ == match result {
                Ok(_) => LoginUIStateView::Connected,
                Err(error) => LoginUIStateView::Failed(
                    "Connection failed: "@ + error.message_spec(),
                ),
            },
            final(self).level_manager == old(self).level_manager,
    {
        match result {
            Ok(_) => {
                self.ui_state = LoginUIState::Connected;
                true
            },
            Err(error) => {
                let reason: String = error.message();
                self.ui_state = LoginUIState::Failed(
                    String::from_str("Connection failed: ").concat(reason.as_str()),
                );
                false
            },
        }
    }

    /// The call to register the player was made.  Returns the status line
    /// to show: the request is on its way, or why it is not.
    pub fn on_register_sent(&mut self, result: Result<(), RustLibError>) -> (message: String)
        ensures
            final(self).ui_state@ == match result {
                Ok(_) => old(self).ui_state@,
                Err(error) => LoginUIStateView::Failed(
                    "Registration failed: "@ + error.message_spec(),
                ),
            },
            message@ == match result {
                Ok(_) => "Registration request sent..."@,
                Err(error) => "Registration failed: "@ + error.message_spec(),
            },
            final(self).level_manager == old(self).level_manager,
    {
        match result {
            Ok(_) => String::from_str("Registration request sent..."),
            Err(error) => {
                let reason: String = error.message();
                self.ui_state = LoginUIState::Failed(
                    String::from_str("Registration failed: ").concat(reason.as_str()),
                );
                self.update_status_from_state()
            },
        }
    }
}

impl Default for LoginScreen {
    fn default() -> (screen: LoginScreen)
        ensures
            screen.ui_state@ == LoginUIStateView::Initial,
    {
        LoginScreen::new()
    }
}

} // verus!
