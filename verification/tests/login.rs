use kik_pok::errors::RustLibError;
use kik_pok::multiplayer::level_manager::LevelManager;
use kik_pok::multiplayer::login_module::{ConnectionState, LoginModule};

#[test]
fn new_login_module_is_disconnected_and_empty() {
    let module = LoginModule::new();
    assert!(matches!(module.get_state(), ConnectionState::Disconnected));
    assert_eq!(module.get_scene_id(), None);
    assert_eq!(module.get_player_name(), None);
}

#[test]
fn setters_store_name_and_scene() {
    let mut module = LoginModule::new();
    module.set_player_name("Alice".to_string());
    module.set_scene_id(1);
    assert_eq!(module.get_player_name(), Some("Alice"));
    assert_eq!(module.get_scene_id(), Some(1));
    assert!(matches!(module.get_state(), ConnectionState::Disconnected));
}

#[test]
fn require_logged_in_fails_before_login() {
    let mut module = LoginModule::new();
    match module.require_logged_in() {
        Err(RustLibError::WrongConnectionState(what)) => {
            assert_eq!(what, "Unexpected function call on non-logged in state")
        }
        other => panic!("unexpected result: {:?}", other),
    }
    *module.get_state_mut() = ConnectionState::Connected;
    assert!(module.require_logged_in().is_err());
    *module.get_state_mut() = ConnectionState::LoginFailed("no".to_string());
    assert!(module.require_logged_in().is_err());
}

#[test]
fn require_logged_in_succeeds_when_logged_in() {
    let mut module = LoginModule::new();
    *module.get_state_mut() = ConnectionState::LoggedIn;
    assert!(module.require_logged_in().is_ok());
}

#[test]
fn entry_scene_path_is_fixed() {
    assert_eq!(LevelManager::new().get_entry_scene_path(), "res://scenes/world/entry.tscn");
}
