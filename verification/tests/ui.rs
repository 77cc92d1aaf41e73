use kik_pok::errors::RustLibError;
use kik_pok::multiplayer::login_module::ConnectionState;
use kik_pok::ui::login_manager::{FrameReport, LoginScreen, LoginUIState};

fn screen_in(state: LoginUIState) -> LoginScreen {
    let mut screen = LoginScreen::new();
    screen.ui_state = state;
    screen
}

fn failure_of(screen: &LoginScreen) -> Option<&str> {
    match &screen.ui_state {
        LoginUIState::Failed(error) => Some(error.as_str()),
        _ => None,
    }
}

#[test]
fn every_state_has_its_status_line() {
    assert_eq!(LoginScreen::new().update_status_from_state(), "Enter username and click login");
    assert_eq!(
        screen_in(LoginUIState::LoginAttempted).update_status_from_state(),
        "Initializing connection..."
    );
    assert_eq!(
        screen_in(LoginUIState::Connecting).update_status_from_state(),
        "Connecting to database..."
    );
    assert_eq!(
        screen_in(LoginUIState::Connected).update_status_from_state(),
        "Connected! Registering player..."
    );
    assert_eq!(
        screen_in(LoginUIState::LoggedIn).update_status_from_state(),
        "Login successful! Entering game..."
    );
    assert_eq!(
        screen_in(LoginUIState::Failed("no luck".to_string())).update_status_from_state(),
        "no luck"
    );
    assert!(matches!(LoginUIState::default(), LoginUIState::Initial));
    assert!(matches!(LoginScreen::default().ui_state, LoginUIState::Initial));
}

#[test]
fn pressing_login_needs_a_name() {
    let mut screen = LoginScreen::new();
    assert!(!screen.on_login_pressed("  \t "));
    assert_eq!(failure_of(&screen), Some("Please enter a username"));
    assert!(!screen.on_login_pressed(""));
    assert!(screen.on_login_pressed(" alice "));
    assert!(matches!(screen.ui_state, LoginUIState::LoginAttempted));
}

#[test]
fn login_goes_through_connecting_and_registering() {
    let mut screen = LoginScreen::new();
    assert!(screen.on_login_pressed("alice"));
    screen.on_connecting();
    assert!(matches!(screen.ui_state, LoginUIState::Connecting));
    assert!(screen.on_connect_finished(Ok(())));
    assert!(matches!(screen.ui_state, LoginUIState::Connected));
    assert_eq!(screen.on_register_sent(Ok(())), "Registration request sent...");
    assert!(matches!(screen.ui_state, LoginUIState::Connected));
}

#[test]
fn a_failed_connection_is_shown() {
    let mut screen = screen_in(LoginUIState::Connecting);
    assert!(!screen.on_connect_finished(Err(RustLibError::SpacetimeSDK("no route".to_string()))));
    assert_eq!(
        failure_of(&screen),
        Some("Connection failed: error with spacetime-db sdk: no route")
    );
}

#[test]
fn a_failed_registration_call_is_shown() {
    let mut screen = screen_in(LoginUIState::Connected);
    let message = screen.on_register_sent(Err(RustLibError::WrongConnectionState(
        "No connection established.".to_string(),
    )));
    assert_eq!(
        message,
        "Registration failed: reached wrong connection state: No connection established."
    );
    assert_eq!(failure_of(&screen), Some(message.as_str()));
}

#[test]
fn a_frame_without_session_fails_a_login_that_was_just_attempted() {
    let mut attempted = screen_in(LoginUIState::LoginAttempted);
    assert_eq!(attempted.process(FrameReport::NoSession), None);
    assert_eq!(failure_of(&attempted), Some("Could not get database connection!"));
    let mut initial = LoginScreen::new();
    assert_eq!(initial.process(FrameReport::NoSession), None);
    assert!(matches!(initial.ui_state, LoginUIState::Initial));
    let mut connected = screen_in(LoginUIState::Connected);
    connected.process(FrameReport::NoSession);
    assert!(matches!(connected.ui_state, LoginUIState::Connected));
}

#[test]
fn a_failed_tick_fails_a_login_that_has_not_connected() {
    for state in [LoginUIState::LoginAttempted, LoginUIState::Connecting] {
        let mut screen = screen_in(state);
        assert_eq!(screen.process(FrameReport::TickFailed("reset by peer".to_string())), None);
        assert_eq!(failure_of(&screen), Some("Connection error: reset by peer"));
    }
    let mut connected = screen_in(LoginUIState::Connected);
    connected.process(FrameReport::TickFailed("reset by peer".to_string()));
    assert!(matches!(connected.ui_state, LoginUIState::Connected));
    let mut initial = LoginScreen::new();
    initial.process(FrameReport::TickFailed("reset by peer".to_string()));
    assert!(matches!(initial.ui_state, LoginUIState::Initial));
}

#[test]
fn the_screen_follows_the_session() {
    let mut screen = screen_in(LoginUIState::Connecting);
    assert_eq!(screen.process(FrameReport::Ticked(ConnectionState::Connecting, false)), None);
    assert!(matches!(screen.ui_state, LoginUIState::Connecting));
    assert_eq!(screen.process(FrameReport::Ticked(ConnectionState::Connected, false)), None);
    assert!(matches!(screen.ui_state, LoginUIState::Connected));
    assert_eq!(screen.process(FrameReport::Ticked(ConnectionState::LoggedIn, false)), None);
    assert!(matches!(screen.ui_state, LoginUIState::LoggedIn));
}

#[test]
fn the_game_is_entered_in_the_frame_that_logs_in() {
    let mut screen = screen_in(LoginUIState::Connected);
    // The session was connected before the check, and the check has logged it in.
    let entered = screen.process(FrameReport::Ticked(ConnectionState::Connected, true));
    assert_eq!(entered, Some("res://scenes/world/entry.tscn".to_string()));
    assert!(matches!(screen.ui_state, LoginUIState::Connected));
}

#[test]
fn a_disconnected_session_fails_a_login_that_was_tried() {
    let mut initial = LoginScreen::new();
    initial.process(FrameReport::Ticked(ConnectionState::Disconnected, false));
    assert!(matches!(initial.ui_state, LoginUIState::Initial));
    let mut connected = screen_in(LoginUIState::Connected);
    connected.process(FrameReport::Ticked(ConnectionState::Disconnected, false));
    assert_eq!(failure_of(&connected), Some("Tried to connect to db, change username please"));
    let mut failed = screen_in(LoginUIState::Failed("earlier".to_string()));
    failed.process(FrameReport::Ticked(ConnectionState::Disconnected, false));
    assert_eq!(failure_of(&failed), Some("Tried to connect to db, change username please"));
}

#[test]
fn a_refused_registration_is_shown_once() {
    let refused = || ConnectionState::LoginFailed("Name too long (max 20 characters)".to_string());
    let mut screen = screen_in(LoginUIState::Connected);
    screen.process(FrameReport::Ticked(refused(), false));
    assert_eq!(failure_of(&screen), Some("Name too long (max 20 characters)"));
    let mut failed = screen_in(LoginUIState::Failed("shown already".to_string()));
    failed.process(FrameReport::Ticked(refused(), false));
    assert_eq!(failure_of(&failed), Some("shown already"));
}

#[test]
fn failing_the_login_sets_what_is_shown() {
    let mut screen = LoginScreen::new();
    screen.update_status_with_failed_state("nope");
    assert_eq!(failure_of(&screen), Some("nope"));
    assert_eq!(screen.update_status_from_state(), "nope");
}
