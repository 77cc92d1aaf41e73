use kik_pok::errors::{RustLibError, SpawnStage};
use kik_pok::identity::{Identity, Timestamp};
use kik_pok::multiplayer::connection_module::{
    hash_username, ConnectAction, ConnectEvent, ConnectPhase, ConnectionModule,
};
use kik_pok::multiplayer::login_module::ConnectionState;
use kik_pok::multiplayer::spacetimedb_manager::{
    FrameTick, ReducerStatus, RegistrationState, SpacetimeDBManager,
};
use kik_pok::server::elements::{DBPlayerState, DbPlayer, WorldScene};
use kik_pok::vector::{DbVector2, Vector2};
use std::collections::hash_map::DefaultHasher;
use std::hash::{Hash, Hasher};

#[derive(Debug, PartialEq)]
struct Link(u32);

fn std_key(username: &str) -> String {
    let mut hasher = DefaultHasher::new();
    username.hash(&mut hasher);
    hasher.finish().to_string()
}

fn player(lo: u128, name: &str) -> DbPlayer {
    DbPlayer {
        identity: Identity::new(0, lo),
        player_id: lo as u32,
        name: name.to_string(),
        state: DBPlayerState::with_position(DbVector2::new(lo as i32, 0)),
    }
}

fn scene(scene_id: u32, x: i32, y: i32) -> WorldScene {
    let mut scene = WorldScene::new(
        "Main".to_string(),
        DbVector2::new(x, y),
        Timestamp::from_micros_since_unix_epoch(0),
    );
    scene.scene_id = scene_id;
    scene
}

fn connected_manager() -> SpacetimeDBManager<Link> {
    let mut manager: SpacetimeDBManager<Link> = SpacetimeDBManager::new();
    manager.connect("alice");
    manager.connect_event("alice", ConnectEvent::CredentialsLoaded(None));
    manager.connect_event("alice", ConnectEvent::Established(Link(1)));
    manager
}

#[test]
fn the_credential_key_is_the_decimal_hash_of_the_name() {
    assert_eq!(hash_username("alice"), std_key("alice"));
    assert_eq!(hash_username(""), std_key(""));
    assert_eq!(hash_username("B\u{f6}b the 2nd"), std_key("B\u{f6}b the 2nd"));
    assert_ne!(hash_username("alice"), hash_username("alicf"));
    assert_ne!(hash_username("alice"), "alice");
    assert!(hash_username("alice").chars().all(|c| c.is_ascii_digit()));
}

#[test]
fn a_new_connection_module_holds_nothing() {
    let module: ConnectionModule<Link> = ConnectionModule::new();
    assert_eq!(module.phase, ConnectPhase::Idle);
    match module.get_connection() {
        Err(RustLibError::WrongConnectionState(what)) => {
            assert_eq!(what, "No connection established.")
        }
        other => panic!("unexpected result: {:?}", other),
    }
}

#[test]
fn connecting_with_cached_credentials() {
    let mut module: ConnectionModule<Link> = ConnectionModule::new();
    match module.connect("alice") {
        ConnectAction::LoadCredentials(key) => assert_eq!(key, std_key("alice")),
        other => panic!("unexpected action: {:?}", other),
    }
    assert_eq!(module.phase, ConnectPhase::LoadingCredentials);
    match module.connect_event(ConnectEvent::CredentialsLoaded(Some("token".to_string()))) {
        ConnectAction::Connect(Some(token)) => assert_eq!(token, "token"),
        other => panic!("unexpected action: {:?}", other),
    }
    assert_eq!(module.phase, ConnectPhase::Connecting);
    assert!(matches!(
        module.connect_event(ConnectEvent::Established(Link(7))),
        ConnectAction::Done
    ));
    assert_eq!(module.phase, ConnectPhase::Idle);
    assert_eq!(module.get_connection().unwrap(), &Link(7));
}

#[test]
fn connecting_for_the_first_time_has_no_token() {
    let mut module: ConnectionModule<Link> = ConnectionModule::new();
    module.connect("alice");
    assert!(matches!(
        module.connect_event(ConnectEvent::CredentialsLoaded(None)),
        ConnectAction::Connect(None)
    ));
    assert_eq!(module.phase, ConnectPhase::Connecting);
}

#[test]
fn unreadable_credentials_lead_to_one_attempt_without_token() {
    let mut module: ConnectionModule<Link> = ConnectionModule::new();
    module.connect("alice");
    assert!(matches!(
        module.connect_event(ConnectEvent::CredentialsFailed("no such file".to_string())),
        ConnectAction::Connect(None)
    ));
    assert_eq!(module.phase, ConnectPhase::Retrying);
    match module.connect_event(ConnectEvent::Refused("no route".to_string())) {
        ConnectAction::Fail(RustLibError::SpacetimeSDK(reason)) => assert_eq!(reason, "no route"),
        other => panic!("unexpected action: {:?}", other),
    }
    assert_eq!(module.phase, ConnectPhase::Idle);
    assert!(module.get_connection().is_err());
}

#[test]
fn a_refused_connection_is_tried_once_more_without_token() {
    let mut module: ConnectionModule<Link> = ConnectionModule::new();
    module.connect("alice");
    module.connect_event(ConnectEvent::CredentialsLoaded(Some("stale".to_string())));
    assert!(matches!(
        module.connect_event(ConnectEvent::Refused("bad token".to_string())),
        ConnectAction::Connect(None)
    ));
    assert_eq!(module.phase, ConnectPhase::Retrying);
    assert!(matches!(
        module.connect_event(ConnectEvent::Established(Link(2))),
        ConnectAction::Done
    ));
    assert_eq!(module.get_connection().unwrap(), &Link(2));
}

#[test]
fn a_second_refusal_ends_the_attempt() {
    let mut module: ConnectionModule<Link> = ConnectionModule::new();
    module.connect("alice");
    module.connect_event(ConnectEvent::CredentialsLoaded(None));
    module.connect_event(ConnectEvent::Refused("first".to_string()));
    match module.connect_event(ConnectEvent::Refused("second".to_string())) {
        ConnectAction::Fail(RustLibError::SpacetimeSDK(reason)) => assert_eq!(reason, "second"),
        other => panic!("unexpected action: {:?}", other),
    }
    assert_eq!(module.phase, ConnectPhase::Idle);
}

#[test]
fn an_event_out_of_turn_changes_nothing() {
    let mut module: ConnectionModule<Link> = ConnectionModule::new();
    match module.connect_event(ConnectEvent::Established(Link(3))) {
        ConnectAction::Fail(RustLibError::WrongConnectionState(what)) => {
            assert_eq!(what, "Unexpected connection event.")
        }
        other => panic!("unexpected action: {:?}", other),
    }
    assert_eq!(module.phase, ConnectPhase::Idle);
    assert!(module.get_connection().is_err());
    module.connect("alice");
    assert!(matches!(
        module.connect_event(ConnectEvent::Refused("early".to_string())),
        ConnectAction::Fail(RustLibError::WrongConnectionState(_))
    ));
    assert_eq!(module.phase, ConnectPhase::LoadingCredentials);
    module.connect_event(ConnectEvent::CredentialsLoaded(None));
    assert!(matches!(
        module.connect_event(ConnectEvent::CredentialsLoaded(None)),
        ConnectAction::Fail(RustLibError::WrongConnectionState(_))
    ));
    assert_eq!(module.phase, ConnectPhase::Connecting);
}

#[test]
fn a_held_connection_stays_until_another_stands() {
    let mut module: ConnectionModule<Link> = ConnectionModule::new();
    module.connect("alice");
    module.connect_event(ConnectEvent::CredentialsLoaded(None));
    module.connect_event(ConnectEvent::Established(Link(1)));
    module.connect("alice");
    assert_eq!(module.get_connection().unwrap(), &Link(1));
    module.connect_event(ConnectEvent::CredentialsLoaded(None));
    module.connect_event(ConnectEvent::Refused("a".to_string()));
    module.connect_event(ConnectEvent::Refused("b".to_string()));
    assert_eq!(module.get_connection().unwrap(), &Link(1));
}

#[test]
fn a_session_goes_from_disconnected_to_connected() {
    let mut manager: SpacetimeDBManager<Link> = SpacetimeDBManager::new();
    assert!(matches!(manager.login_module.get_state(), ConnectionState::Disconnected));
    manager.connect("alice");
    assert!(matches!(manager.login_module.get_state(), ConnectionState::Connecting));
    assert_eq!(manager.login_module.get_player_name(), None);
    manager.connect_event("alice", ConnectEvent::CredentialsLoaded(None));
    assert!(matches!(manager.login_module.get_state(), ConnectionState::Connecting));
    manager.connect_event("alice", ConnectEvent::Established(Link(1)));
    assert!(matches!(manager.login_module.get_state(), ConnectionState::Connected));
    assert_eq!(manager.login_module.get_player_name(), Some("alice"));
    assert_eq!(manager.login_module.get_scene_id(), Some(1));
    assert_eq!(manager.get_connection().unwrap(), &Link(1));
}

#[test]
fn a_failed_attempt_leaves_the_session_disconnected() {
    let mut manager: SpacetimeDBManager<Link> = SpacetimeDBManager::new();
    manager.connect("alice");
    manager.connect_event("alice", ConnectEvent::CredentialsFailed("gone".to_string()));
    let action = manager.connect_event("alice", ConnectEvent::Refused("down".to_string()));
    assert!(matches!(action, ConnectAction::Fail(RustLibError::SpacetimeSDK(_))));
    assert!(matches!(manager.login_module.get_state(), ConnectionState::Disconnected));
    assert_eq!(manager.login_module.get_player_name(), None);
    assert!(manager.get_connection().is_err());
}

#[test]
fn the_session_subscribes_to_its_tables() {
    assert_eq!(
        SpacetimeDBManager::<Link>::register_subscribers(),
        vec![
            "SELECT * FROM coin",
            "SELECT * FROM world_scene",
            "SELECT * FROM player_score",
            "SELECT * FROM green_slime",
            "SELECT * FROM world_scene",
            "SELECT * FROM player",
        ]
    );
}

#[test]
fn a_disconnected_session_is_not_advanced() {
    let manager: SpacetimeDBManager<Link> = SpacetimeDBManager::new();
    assert!(matches!(manager.wants_tick(), Ok(false)));
    assert!(matches!(connected_manager().wants_tick(), Ok(true)));
    let mut broken: SpacetimeDBManager<Link> = SpacetimeDBManager::new();
    *broken.login_module.get_state_mut() = ConnectionState::Connected;
    assert!(matches!(broken.wants_tick(), Err(RustLibError::WrongConnectionState(_))));
}

#[test]
fn a_closed_connection_disconnects_the_session_without_failure() {
    let mut manager = connected_manager();
    assert!(manager.tick(FrameTick::Advanced).is_ok());
    assert!(matches!(manager.login_module.get_state(), ConnectionState::Connected));
    assert!(manager.tick(FrameTick::Disconnected).is_ok());
    assert!(matches!(manager.login_module.get_state(), ConnectionState::Disconnected));
    assert!(matches!(manager.wants_tick(), Ok(false)));
}

#[test]
fn a_transport_failure_is_passed_on() {
    let mut manager = connected_manager();
    match manager.tick(FrameTick::Failed("broken pipe".to_string())) {
        Err(RustLibError::SpacetimeSDK(reason)) => assert_eq!(reason, "broken pipe"),
        other => panic!("unexpected result: {:?}", other),
    }
    assert!(matches!(manager.login_module.get_state(), ConnectionState::Connected));
    match SpacetimeDBManager::<Link>::call_failed("refused".to_string()) {
        RustLibError::SpacetimeSDK(reason) => assert_eq!(reason, "refused"),
        other => panic!("unexpected error: {:?}", other),
    }
}

#[test]
fn login_follows_the_registration() {
    let mut manager = connected_manager();
    assert!(!manager.check_and_login(&RegistrationState::NotRegistered));
    assert!(matches!(manager.login_module.get_state(), ConnectionState::Connected));
    let refused = RegistrationState::RegistrationFailed("Name cannot be empty".to_string());
    assert!(!manager.check_and_login(&refused));
    match manager.login_module.get_state() {
        ConnectionState::LoginFailed(reason) => assert_eq!(reason, "Name cannot be empty"),
        other => panic!("unexpected state: {:?}", other),
    }
    assert!(manager.check_and_login(&RegistrationState::Registered));
    assert!(matches!(manager.login_module.get_state(), ConnectionState::LoggedIn));
}

#[test]
fn the_registration_state_follows_the_answer_of_the_store() {
    assert!(matches!(RegistrationState::default(), RegistrationState::NotRegistered));
    assert!(matches!(
        RegistrationState::from_status(ReducerStatus::Committed),
        RegistrationState::Registered
    ));
    match RegistrationState::from_status(ReducerStatus::Failed("Scene does not exist".to_string()))
    {
        RegistrationState::RegistrationFailed(reason) => assert_eq!(reason, "Scene does not exist"),
        other => panic!("unexpected state: {:?}", other),
    }
    match RegistrationState::from_status(ReducerStatus::OutOfEnergy) {
        RegistrationState::RegistrationFailed(reason) => assert_eq!(reason, "Out of energy"),
        other => panic!("unexpected state: {:?}", other),
    }
}

#[test]
fn the_spawn_point_is_that_of_the_session_scene() {
    let manager = connected_manager();
    let scenes = vec![scene(2, 1, 1), scene(1, -15_000, -35_000)];
    assert_eq!(manager.get_spawn_point(&scenes).unwrap(), Some(Vector2::new(-15_000, -35_000)));
    assert_eq!(manager.get_spawn_point(&vec![scene(2, 1, 1)]).unwrap(), None);
}

#[test]
fn the_spawn_point_needs_connection_and_scene() {
    let manager: SpacetimeDBManager<Link> = SpacetimeDBManager::new();
    assert!(matches!(
        manager.get_spawn_point(&vec![scene(1, 0, 0)]),
        Err(RustLibError::WrongConnectionState(_))
    ));
    let mut without_scene = connected_manager();
    without_scene.login_module.scene_id = None;
    match without_scene.get_spawn_point(&vec![scene(1, 0, 0)]) {
        Err(RustLibError::WorldSetup(what)) => {
            assert_eq!(what, "Expected scene id to be in the Login Module.")
        }
        other => panic!("unexpected result: {:?}", other),
    }
}

#[test]
fn a_player_is_logged_in_when_a_row_has_their_name() {
    let manager = connected_manager();
    let players = vec![player(1, "Ann"), player(2, "Ben")];
    assert!(manager.is_player_logged_in(&players, "Ben"));
    assert!(!manager.is_player_logged_in(&players, "ben"));
    assert!(!manager.is_player_logged_in(&Vec::new(), "Ben"));
    let offline: SpacetimeDBManager<Link> = SpacetimeDBManager::new();
    assert!(!offline.is_player_logged_in(&players, "Ben"));
}

#[test]
fn other_players_are_all_rows_but_the_own() {
    let manager = connected_manager();
    let players = vec![player(1, "Ann"), player(2, "Ben"), player(3, "Cat")];
    let others = manager.get_other_players(&players, Identity::new(0, 2)).unwrap();
    let names: Vec<&str> = others.iter().map(|row| row.name.as_str()).collect();
    assert_eq!(names, vec!["Ann", "Cat"]);
    assert_eq!(others[1].identity, Identity::new(0, 3));
    assert_eq!(others[1].player_id, 3);
    assert_eq!(others[1].state, players[2].state);
    let all = manager.get_other_players(&players, Identity::new(9, 9)).unwrap();
    assert_eq!(all.len(), 3);
    let offline: SpacetimeDBManager<Link> = SpacetimeDBManager::new();
    assert!(matches!(
        offline.get_other_players(&players, Identity::new(0, 2)),
        Err(RustLibError::WrongConnectionState(_))
    ));
}

#[test]
fn game_calls_need_a_logged_in_session() {
    let mut manager = connected_manager();
    let state = DBPlayerState::with_position(DbVector2::new(1, 2));
    match manager.send_inputs(state) {
        Err(RustLibError::WrongConnectionState(what)) => {
            assert_eq!(what, "Unexpected function call on non-logged in state")
        }
        other => panic!("unexpected result: {:?}", other),
    }
    assert!(manager.collect_coin_at_position(Vector2::new(1, 2)).is_err());
    manager.check_and_login(&RegistrationState::Registered);
    assert_eq!(manager.send_inputs(state).unwrap(), (&Link(1), state));
    assert_eq!(
        manager.collect_coin_at_position(Vector2::new(80_000, -25_000)).unwrap(),
        (&Link(1), DbVector2::new(80_000, -25_000))
    );
    let mut without_link: SpacetimeDBManager<Link> = SpacetimeDBManager::new();
    *without_link.login_module.get_state_mut() = ConnectionState::LoggedIn;
    assert!(matches!(
        without_link.send_inputs(state),
        Err(RustLibError::WrongConnectionState(_))
    ));
}

#[test]
fn client_errors_have_their_messages() {
    let text = |s: &str| s.to_string();
    assert_eq!(
        RustLibError::SpacetimeSDK(text("timeout")).message(),
        "error with spacetime-db sdk: timeout"
    );
    assert_eq!(
        RustLibError::WrongConnectionState(text("none")).message(),
        "reached wrong connection state: none"
    );
    assert_eq!(
        RustLibError::WorldSetup(text("no scene")).message(),
        "encountered incomplete world setup: no scene"
    );
    assert_eq!(
        RustLibError::ResourceLoadError(text("res://a")).message(),
        "resource load error: res://a"
    );
    assert_eq!(
        RustLibError::ResourceCastError(text("res://a"), text("Node")).message(),
        "resource cast error: res://a to Node"
    );
    assert_eq!(
        RustLibError::ResourceInstantiateError(text("res://a")).message(),
        "resource instantiate error: res://a"
    );
}

#[test]
fn spawn_failures_are_typed_by_their_stage() {
    let path = "res://scenes/characters/remote_player.tscn";
    match RustLibError::spawn_error(SpawnStage::Load, path, "RemotePlayerNode") {
        RustLibError::ResourceLoadError(at) => assert_eq!(at, path),
        other => panic!("unexpected error: {:?}", other),
    }
    match RustLibError::spawn_error(SpawnStage::CastScene, path, "RemotePlayerNode") {
        RustLibError::ResourceCastError(at, class) => {
            assert_eq!(at, path);
            assert_eq!(class, "PackedScene");
        }
        other => panic!("unexpected error: {:?}", other),
    }
    match RustLibError::spawn_error(SpawnStage::Instantiate, path, "RemotePlayerNode") {
        RustLibError::ResourceInstantiateError(at) => assert_eq!(at, path),
        other => panic!("unexpected error: {:?}", other),
    }
    match RustLibError::spawn_error(SpawnStage::CastNode, path, "RemotePlayerNode") {
        RustLibError::ResourceCastError(at, class) => {
            assert_eq!(at, path);
            assert_eq!(class, "RemotePlayerNode");
        }
        other => panic!("unexpected error: {:?}", other),
    }
}
