use gromnie_client::events::CharacterInfo;
use gromnie_client::instant::Instant;
use gromnie_client::scene::{
    CharacterSelectScene, ClientError, ConnectingProgress, ConnectingScene, EnteringWorldState, ErrorScene,
    InWorldScene, PatchingProgress, Scene,
};
use gromnie_client::session::{ClientSession, SessionState};

#[test]
fn test_connecting_scene_creation() {
    let scene = ConnectingScene::new();
    assert_eq!(scene.connect_progress, ConnectingProgress::Initial);
    assert_eq!(scene.patch_progress, PatchingProgress::NotStarted);
}

#[test]
fn test_connecting_progress_transitions() {
    let mut scene = ConnectingScene::new();
    assert_eq!(scene.connect_progress, ConnectingProgress::Initial);
    scene.connect_progress = ConnectingProgress::LoginRequestSent;
    assert_eq!(scene.connect_progress, ConnectingProgress::LoginRequestSent);
    scene.connect_progress = ConnectingProgress::ConnectRequestReceived;
    assert_eq!(scene.connect_progress, ConnectingProgress::ConnectRequestReceived);
    scene.connect_progress = ConnectingProgress::ConnectResponseSent;
    assert_eq!(scene.connect_progress, ConnectingProgress::ConnectResponseSent);
}

#[test]
fn test_patching_progress_transitions() {
    let mut scene = ConnectingScene::new();
    assert_eq!(scene.patch_progress, PatchingProgress::NotStarted);
    scene.patch_progress = PatchingProgress::WaitingForDDD;
    assert_eq!(scene.patch_progress, PatchingProgress::WaitingForDDD);
    scene.patch_progress = PatchingProgress::ReceivedDDD;
    assert_eq!(scene.patch_progress, PatchingProgress::ReceivedDDD);
    scene.patch_progress = PatchingProgress::SentDDDResponse;
    assert_eq!(scene.patch_progress, PatchingProgress::SentDDDResponse);
    scene.patch_progress = PatchingProgress::Complete;
    assert_eq!(scene.patch_progress, PatchingProgress::Complete);
}

#[test]
fn test_connecting_scene_timeout_detection() {
    let start = Instant::from_millis(1_000_000);
    let scene = ConnectingScene::new_at(start);
    assert!(!scene.has_timed_out_at(start, 1));
    assert!(scene.has_timed_out_at(start.add_millis(5), 1));
}

#[test]
fn test_connecting_scene_retry_timing() {
    let start = Instant::from_millis(1_000_000);
    let mut scene = ConnectingScene::new_at(start);
    assert!(!scene.should_retry_at(start, 1));
    let later = start.add_millis(5);
    assert!(scene.should_retry_at(later, 1));
    scene.update_retry_time_at(later);
    assert!(!scene.should_retry_at(later, 1));
}

#[test]
fn test_connecting_scene_reset() {
    let mut scene = ConnectingScene::new();
    scene.connect_progress = ConnectingProgress::LoginRequestSent;
    scene.patch_progress = PatchingProgress::WaitingForDDD;
    let old_start = scene.started_at;
    scene.reset();
    assert_eq!(scene.connect_progress, ConnectingProgress::Initial);
    assert_eq!(scene.patch_progress, PatchingProgress::NotStarted);
    assert_eq!(scene.started_at, scene.last_retry_at);
    assert!(scene.started_at >= old_start);
}

#[test]
fn a_reset_never_moves_the_start_back() {
    let mut scene = ConnectingScene::new_at(Instant::from_millis(u64::MAX - 1));
    scene.reset();
    assert_eq!(scene.started_at, Instant::from_millis(u64::MAX - 1));
    assert_eq!(scene.last_retry_at, scene.started_at);
}

#[test]
fn test_character_select_scene_creation() {
    let account_name = "TestAccount".to_string();
    let characters = vec![
        CharacterInfo { name: "Char1".to_string(), id: 1, delete_pending: false },
        CharacterInfo { name: "Char2".to_string(), id: 2, delete_pending: false },
    ];
    let scene = CharacterSelectScene::new(account_name.clone(), characters.clone());
    assert_eq!(scene.account_name, account_name);
    assert_eq!(scene.characters.len(), 2);
    assert!(scene.entering_world.is_none());
}

#[test]
fn test_character_select_begin_entering_world() {
    let mut scene = CharacterSelectScene::new("TestAccount".to_string(), vec![]);
    assert!(!scene.is_entering_world());
    scene.begin_entering_world(123, "MyChar".to_string(), "TestAccount".to_string());
    assert!(scene.is_entering_world());
    let entering = scene.entering_world.as_ref().unwrap();
    assert_eq!(entering.character_id, 123);
    assert_eq!(entering.character_name, "MyChar");
    assert!(!entering.login_complete);
}

#[test]
fn test_character_select_mark_login_complete() {
    let mut scene = CharacterSelectScene::new("TestAccount".to_string(), vec![]);
    scene.begin_entering_world(123, "MyChar".to_string(), "TestAccount".to_string());
    assert!(!scene.entering_world.as_ref().unwrap().login_complete);
    scene.mark_login_complete();
    assert!(scene.entering_world.as_ref().unwrap().login_complete);
}

#[test]
fn test_character_select_clear_entering_world() {
    let mut scene = CharacterSelectScene::new("TestAccount".to_string(), vec![]);
    scene.begin_entering_world(123, "MyChar".to_string(), "TestAccount".to_string());
    assert!(scene.is_entering_world());
    scene.clear_entering_world();
    assert!(!scene.is_entering_world());
}

#[test]
fn test_in_world_scene_creation() {
    let scene = InWorldScene::new(456, "MyCharacter".to_string());
    assert_eq!(scene.character_id, 456);
    assert_eq!(scene.character_name, "MyCharacter");
}

#[test]
fn test_error_scene_creation_with_retry() {
    let error = ClientError::ConnectionFailed("Connection lost".to_string());
    let scene = ErrorScene::new(error, true);
    assert!(scene.can_retry);
}

#[test]
fn test_error_scene_creation_without_retry() {
    let error = ClientError::LoginTimeout;
    let scene = ErrorScene::new(error, false);
    assert!(!scene.can_retry);
}

#[test]
fn test_scene_as_connecting() {
    let scene = Scene::Connecting(ConnectingScene::new());
    assert!(scene.as_connecting().is_some());
    assert!(scene.as_character_select().is_none());
    assert!(scene.as_in_world().is_none());
    assert!(scene.as_error().is_none());
}

#[test]
fn test_scene_as_character_select() {
    let scene = Scene::CharacterSelect(CharacterSelectScene::new("Account".to_string(), vec![]));
    assert!(scene.as_connecting().is_none());
    assert!(scene.as_character_select().is_some());
    assert!(scene.as_in_world().is_none());
    assert!(scene.as_error().is_none());
}

#[test]
fn test_scene_as_in_world() {
    let scene = Scene::InWorld(InWorldScene::new(789, "Char".to_string()));
    assert!(scene.as_connecting().is_none());
    assert!(scene.as_character_select().is_none());
    assert!(scene.as_in_world().is_some());
    assert!(scene.as_error().is_none());
}

#[test]
fn test_scene_as_error() {
    let scene = Scene::Error(ErrorScene::new(ClientError::PatchingFailed("Patch failed".to_string()), true));
    assert!(scene.as_connecting().is_none());
    assert!(scene.as_character_select().is_none());
    assert!(scene.as_in_world().is_none());
    assert!(scene.as_error().is_some());
}

#[test]
fn test_scene_can_retry_error() {
    let scene = Scene::Error(ErrorScene::new(ClientError::ConnectionFailed("Lost".to_string()), true));
    assert!(scene.can_retry());
}

#[test]
fn test_scene_cannot_retry_non_error() {
    let scene = Scene::Connecting(ConnectingScene::new());
    assert!(!scene.can_retry());
}

#[test]
fn test_scene_as_connecting_mut() {
    let mut scene = Scene::Connecting(ConnectingScene::new());
    if let Some(connecting) = scene.as_connecting_mut() {
        connecting.connect_progress = ConnectingProgress::LoginRequestSent;
    }
    let connecting = scene.as_connecting().unwrap();
    assert_eq!(connecting.connect_progress, ConnectingProgress::LoginRequestSent);
}

#[test]
fn test_scene_as_character_select_mut() {
    let mut scene = Scene::CharacterSelect(CharacterSelectScene::new("Account".to_string(), vec![]));
    if let Some(char_select) = scene.as_character_select_mut() {
        char_select.begin_entering_world(999, "TestChar".to_string(), "TestAccount".to_string());
    }
    let char_select = scene.as_character_select().unwrap();
    assert!(char_select.is_entering_world());
}

#[test]
fn test_client_error_variants() {
    let conn_failed = ClientError::ConnectionFailed("failed".to_string());
    let patch_failed = ClientError::PatchingFailed("failed".to_string());
    let login_timeout = ClientError::LoginTimeout;
    let patch_timeout = ClientError::PatchingTimeout;
    assert!(matches!(conn_failed, ClientError::ConnectionFailed(_)));
    assert!(matches!(patch_failed, ClientError::PatchingFailed(_)));
    assert!(matches!(login_timeout, ClientError::LoginTimeout));
    assert!(matches!(patch_timeout, ClientError::PatchingTimeout));
}

#[test]
fn test_entering_world_state_creation() {
    let state = EnteringWorldState {
        character_id: 111,
        character_name: "TestChar".to_string(),
        account: "TestAccount".to_string(),
        login_complete: false,
    };
    assert_eq!(state.character_id, 111);
    assert_eq!(state.character_name, "TestChar");
    assert_eq!(state.account, "TestAccount");
    assert!(!state.login_complete);
}

#[test]
fn test_session_state_enum_variants() {
    let variants = [
        SessionState::AuthLoginRequest,
        SessionState::AuthConnectResponse,
        SessionState::AuthConnected,
        SessionState::WorldConnected,
        SessionState::TerminationStarted,
    ];
    assert_eq!(variants.len(), 5);
}

#[test]
fn test_client_session_creation() {
    let session = ClientSession::new(SessionState::AuthLoginRequest);
    assert_eq!(session.state, SessionState::AuthLoginRequest);
    assert!(session.connection.is_none());
    assert!(session.metadata.started_at.is_some());
    assert_eq!(session.metadata.connect_attempt_count, 0);
}

#[test]
fn test_client_session_transition() {
    let mut session = ClientSession::new(SessionState::AuthLoginRequest);
    assert_eq!(session.state, SessionState::AuthLoginRequest);
    session.transition_to(SessionState::AuthConnectResponse);
    assert_eq!(session.state, SessionState::AuthConnectResponse);
    session.transition_to(SessionState::AuthConnected);
    assert_eq!(session.state, SessionState::AuthConnected);
    session.transition_to(SessionState::WorldConnected);
    assert_eq!(session.state, SessionState::WorldConnected);
}

#[test]
fn test_full_login_flow_transitions() {
    let mut session = ClientSession::new(SessionState::AuthLoginRequest);
    let mut scene = Scene::Connecting(ConnectingScene::new());
    assert_eq!(session.state, SessionState::AuthLoginRequest);
    assert!(scene.as_connecting().is_some());
    if let Some(connecting) = scene.as_connecting_mut() {
        connecting.connect_progress = ConnectingProgress::LoginRequestSent;
    }
    if let Some(connecting) = scene.as_connecting_mut() {
        connecting.connect_progress = ConnectingProgress::ConnectRequestReceived;
    }
    session.transition_to(SessionState::AuthConnectResponse);
    if let Some(connecting) = scene.as_connecting_mut() {
        connecting.connect_progress = ConnectingProgress::ConnectResponseSent;
        connecting.patch_progress = PatchingProgress::WaitingForDDD;
    }
    session.transition_to(SessionState::AuthConnected);
    if let Some(connecting) = scene.as_connecting_mut() {
        connecting.patch_progress = PatchingProgress::ReceivedDDD;
    }
    if let Some(connecting) = scene.as_connecting_mut() {
        connecting.patch_progress = PatchingProgress::SentDDDResponse;
    }
    let characters = vec![CharacterInfo { name: "TestChar".to_string(), id: 1, delete_pending: false }];
    scene = Scene::CharacterSelect(CharacterSelectScene::new("TestAccount".to_string(), characters.clone()));
    assert_eq!(session.state, SessionState::AuthConnected);
    assert!(scene.as_character_select().is_some());
    if let Some(char_select) = scene.as_character_select_mut() {
        char_select.begin_entering_world(1, "TestChar".to_string(), "TestAccount".to_string());
    }
    if let Some(char_select) = scene.as_character_select_mut() {
        char_select.mark_login_complete();
    }
    scene = Scene::InWorld(InWorldScene::new(1, "TestChar".to_string()));
    session.transition_to(SessionState::WorldConnected);
    assert_eq!(session.state, SessionState::WorldConnected);
    assert!(scene.as_in_world().is_some());
    let in_world = scene.as_in_world().unwrap();
    assert_eq!(in_world.character_id, 1);
    assert_eq!(in_world.character_name, "TestChar");
}

#[test]
fn test_connection_timeout_error_recovery() {
    let mut scene = Scene::Connecting(ConnectingScene::new());
    if let Some(connecting) = scene.as_connecting_mut() {
        connecting.started_at = Instant::now().sub_millis(25_000);
    }
    let timeout_detected = scene.as_connecting().map(|c| c.has_timed_out(20_000)).unwrap_or(false);
    assert!(timeout_detected);
    let session = ClientSession::new(SessionState::AuthLoginRequest);
    let scene = Scene::Connecting(ConnectingScene::new());
    assert_eq!(session.state, SessionState::AuthLoginRequest);
    assert!(scene.as_connecting().is_some());
}
