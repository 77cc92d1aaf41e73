//! The link to the world store: how it is set up, and who holds it.
//!
//! Setting up the link takes work that only the caller can do: reading the
//! cached credentials and opening the connection.  The module decides what
//! is to be done next.  [`ConnectionModule::connect`] starts an attempt and
//! asks for the credentials; the caller reports each outcome with
//! [`ConnectionModule::connect_event`] and is told the next step:
//!
//! * the credentials were read: connect with the cached token, if any;
//! * the credentials could not be read: connect without a token;
//! * the connection was refused: connect once more without a token, and
//!   give up if that is refused too;
//! * the connection stands: keep it.

use crate::errors::RustLibError;
use crate::text::{decimal, to_decimal};
use std::collections::hash_map::DefaultHasher;
use std::hash::{Hash, Hasher};
use vstd::prelude::*;
use vstd::std_specs::hash::DefaultHasherAdditionalSpecFns;
use vstd::string::StringExecFns;

verus! {

/// What a hasher has been fed after `text` was hashed into one that had
/// been fed `written`.
pub uninterp spec fn str_hash_writes(written: Seq<Seq<u8>>, text: Seq<char>) -> Seq<Seq<u8>>;

/// Hashes `text` into `state` with `Hash::hash` of `str`.  What the hasher
/// has been fed afterwards depends on what it had been fed and on the text
/// alone.
#[verifier::external_body]
fn hash_str(text: &str, state: &mut DefaultHasher)
    ensures
        final(state)@ == str_hash_writes(old(state)@, text@),
{
    text.hash(state);
}

/// The hash of a user name: what a fresh default hasher yields after the
/// name was hashed into it.
pub open spec fn username_hash(username: Seq<char>) -> u64 {
    DefaultHasher::spec_finish(str_hash_writes(Seq::empty(), username))
}

/// The key under which the credentials of `username` are cached: the hash
/// of the name, in decimal.
pub fn hash_username(username: &str) -> (key: String)
    ensures
        key@ == decimal(username_hash(username@) as nat),
{
    let mut hasher = DefaultHasher::new();
    hash_str(username, &mut hasher);
    to_decimal(hasher.finish())
}

/// How far an attempt to connect has come.
#[derive(Clone, Copy, Debug, PartialEq, Eq, Structural)]
pub enum ConnectPhase {
    /// No attempt was made, or the last one is over.
    Idle,
    /// The cached credentials are being read.
    LoadingCredentials,
    /// The connection is being opened, for the first time.
    Connecting,
    /// The connection is being opened without a token, for the last time.
    Retrying,
}

/// What the caller reports of the work it was asked to do.
#[derive(Debug)]
pub enum ConnectEvent<C> {
    /// The credentials were read; holds the cached token, if there is one.
    CredentialsLoaded(Option<String>),
    /// The credentials could not be read; holds the reason.
    CredentialsFailed(String),
    /// The connection stands.
    Established(C),
    /// The connection was refused; holds the reason.
    Refused(String),
}

/// What the caller is to do next.
#[derive(Debug)]
pub enum ConnectAction {
    /// Read the credentials cached under this key.
    LoadCredentials(String),
    /// Open the connection, with this token if there is one.
    Connect(Option<String>),
    /// Nothing: the connection stands.
    Done,
    /// Nothing: the attempt has failed.
    Fail(RustLibError),
}

/// The contents of an action, for contracts.
pub enum ConnectActionView {
    LoadCredentials(Seq<char>),
    Connect(Option<Seq<char>>),
    Done,
    FailSdk(Seq<char>),
    FailWrongState(Seq<char>),
    FailOther,
}

impl View for ConnectAction {
    type V = ConnectActionView;

    open spec fn view(&self) -> ConnectActionView {
        match self {
            ConnectAction::LoadCredentials(key) => ConnectActionView::LoadCredentials(key@),
            ConnectAction::Connect(Some(token)) => ConnectActionView::Connect(Some(token@)),
            ConnectAction::Connect(None) => ConnectActionView::Connect(None),
            ConnectAction::Done => ConnectActionView::Done,
            ConnectAction::Fail(RustLibError::SpacetimeSDK(reason)) => ConnectActionView::FailSdk(
                reason@,
            ),
            ConnectAction::Fail(RustLibError::WrongConnectionState(what)) =>
                ConnectActionView::FailWrongState(what@),
            ConnectAction::Fail(_) => ConnectActionView::FailOther,
        }
    }
}

/// Holds the connection to the world store, once there is one.
#[derive(Debug)]
pub struct ConnectionModule<C> {
    pub connection: Option<C>,
    pub phase: ConnectPhase,
}

/// The phase after an event.
pub open spec fn phase_after<C>(phase: ConnectPhase, event: ConnectEvent<C>) -> ConnectPhase {
    match (phase, event) {
        (ConnectPhase::LoadingCredentials, ConnectEvent::CredentialsLoaded(_)) =>
            ConnectPhase::Connecting,
        (ConnectPhase::LoadingCredentials, ConnectEvent::CredentialsFailed(_)) =>
            ConnectPhase::Retrying,
        (ConnectPhase::Connecting, ConnectEvent::Refused(_)) => ConnectPhase::Retrying,
        (ConnectPhase::Retrying, ConnectEvent::Refused(_)) => ConnectPhase::Idle,
        (ConnectPhase::Connecting, ConnectEvent::Established(_)) => ConnectPhase::Idle,
        (ConnectPhase::Retrying, ConnectEvent::Established(_)) => ConnectPhase::Idle,
        _ => phase,
    }
}

/// The next step after an event.  An event that does not answer the step
/// that was asked for is a failure of its own and changes nothing.
pub open spec fn action_after<C>(phase: ConnectPhase, event: ConnectEvent<C>) -> ConnectActionView {
    match (phase, event) {
        (
            ConnectPhase::LoadingCredentials,
            ConnectEvent::CredentialsLoaded(Some(token)),
        ) => ConnectActionView::Connect(Some(token@)),
        (ConnectPhase::LoadingCredentials, ConnectEvent::CredentialsLoaded(None)) =>
            ConnectActionView::Connect(None),
        (ConnectPhase::LoadingCredentials, ConnectEvent::CredentialsFailed(_)) =>
            ConnectActionView::Connect(None),
        (ConnectPhase::Connecting, ConnectEvent::Refused(_)) => ConnectActionView::Connect(None),
        (ConnectPhase::Retrying, ConnectEvent::Refused(reason)) => ConnectActionView::FailSdk(
            reason@,
        ),
        (ConnectPhase::Connecting, ConnectEvent::Established(_)) => ConnectActionView::Done,
        (ConnectPhase::Retrying, ConnectEvent::Established(_)) => ConnectActionView::Done,
        _ => ConnectActionView::FailWrongState("Unexpected connection event."@),
    }
}

/// The connection that is held after an event: the one that was
/// established, if the event answers an attempt to open it.
pub open spec fn connection_after<C>(
    held: Option<C>,
    phase: ConnectPhase,
    event: ConnectEvent<C>,
) -> Option<C> {
    match (phase, event) {
        (ConnectPhase::Connecting, ConnectEvent::Established(connection)) => Some(connection),
        (ConnectPhase::Retrying, ConnectEvent::Established(connection)) => Some(connection),
        _ => held,
    }
}

impl<C> ConnectionModule<C> {
    pub fn new() -> (module: ConnectionModule<C>)
        ensures
            module.connection is None,
            module.phase == ConnectPhase::Idle,
    {
        ConnectionModule { connection: None, phase: ConnectPhase::Idle }
    }

    /// The connection, if one is held.
    pub fn get_connection(&self) -> (result: Result<&C, RustLibError>)
        ensures
            match result {
                Ok(connection) => self.connection == Some(*connection),
                Err(error) => self.connection is None && (error
                    matches RustLibError::WrongConnectionState(what) && what@
                    == "No connection established."@),
            },
    {
        match &self.connection {
            Some(connection) => Ok(connection),
            None => Err(
                RustLibError::WrongConnectionState(String::from_str("No connection established.")),
            ),
        }
    }

    /// Starts an attempt to connect as `username`: the credentials cached
    /// for that name are to be read.  A connection that is held stays until
    /// another one stands.
    pub fn connect(&mut self, username: &str) -> (action: ConnectAction)
        ensures
            action@ == ConnectActionView::LoadCredentials(
                decimal(username_hash(username@) as nat),
            ),
            final(self).phase == ConnectPhase::LoadingCredentials,
            final(self).connection == old(self).connection,
    {
        self.phase = ConnectPhase::LoadingCredentials;
        ConnectAction::LoadCredentials(hash_username(username))
    }

    /// Takes in the outcome of the step that was asked for, and says what
    /// to do next.
    pub fn connect_event(&mut self, event: ConnectEvent<C>) -> (action: ConnectAction)
        ensures
            action@ == action_after(old(self).phase, event),
            final(self).phase == phase_after(old(self).phase, event),
            final(self).connection == connection_after(
                old(self).connection,
                old(self).phase,
                event,
            ),
    {
        match (self.phase, event) {
            (ConnectPhase::LoadingCredentials, ConnectEvent::CredentialsLoaded(token)) => {
                self.phase = ConnectPhase::Connecting;
                ConnectAction::Connect(token)
            },
            (ConnectPhase::LoadingCredentials, ConnectEvent::CredentialsFailed(_)) => {
                self.phase = ConnectPhase::Retrying;
                ConnectAction::Connect(None)
            },
            (ConnectPhase::Connecting, ConnectEvent::Refused(_)) => {
                self.phase = ConnectPhase::Retrying;
                ConnectAction::Connect(None)
            },
            (ConnectPhase::Retrying, ConnectEvent::Refused(reason)) => {
                self.phase = ConnectPhase::Idle;
                ConnectAction::Fail(RustLibError::SpacetimeSDK(reason))
            },
            (ConnectPhase::Connecting, ConnectEvent::Established(connection)) => {
                self.phase = ConnectPhase::Idle;
                self.connection = Some(connection);
                ConnectAction::Done
            },
            (ConnectPhase::Retrying, ConnectEvent::Established(connection)) => {
                self.phase = ConnectPhase::Idle;
                self.connection = Some(connection);
                ConnectAction::Done
            },
            _ => ConnectAction::Fail(
                RustLibError::WrongConnectionState(String::from_str("Unexpected connection event.")),
            ),
        }
    }
}

impl<C> Default for ConnectionModule<C> {
    fn default() -> (module: ConnectionModule<C>)
        ensures
            module.connection is None,
            module.phase == ConnectPhase::Idle,
    {
        ConnectionModule::new()
    }
}

} // verus!
