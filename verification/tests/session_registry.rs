use matrix_core::api::{
    matrix_init_client, matrix_is_logged_in, matrix_login, matrix_logout,
    matrix_perform_initial_sync, start_sliding_sync, start_sync_service,
};
use matrix_core::errors::CoreError;
use matrix_core::session::{
    configure_failed, is_client_authenticated, login, login_completed, logout, logout_completed,
    register, session_restored, MatrixClientConfig,
};
use matrix_core::sync_service::App;

fn demo_config() -> MatrixClientConfig {
    MatrixClientConfig {
        homeserver_url: String::from("https://example.org"),
        storage_path: String::from("/tmp/s1"),
    }
}

#[test]
fn sign_out_without_a_session_fails_with_not_initialized() {
    let app = App::new();
    assert_eq!(matrix_logout(&app), Err(CoreError::NotInitialized));
    assert_eq!(logout(&app), Err(CoreError::NotInitialized));
}

#[test]
fn repeated_configuration_does_not_rebuild_the_session() {
    let mut app = App::new();
    assert_eq!(matrix_init_client(&mut app, demo_config()), Ok(true));
    let builds_after_first = app.build_count;
    assert_eq!(builds_after_first, 1);
    // The second call with the same configuration succeeds without building
    // a second client: the idempotency counter does not move.
    assert_eq!(matrix_init_client(&mut app, demo_config()), Ok(true));
    assert_eq!(app.build_count, builds_after_first);
}

#[test]
fn configuration_installs_the_consumer_settings() {
    let mut app = App::new();
    assert_eq!(matrix_init_client(&mut app, demo_config()), Ok(true));
    let config = app.config.as_ref().expect("configured");
    assert_eq!(config.homeserver_url, "https://example.org");
    assert_eq!(config.session_path, "/tmp/s1");
    assert!(config.proxy.is_none());
    assert!(config.root_certificates.is_none());
    assert!(!app.authenticated);
}

#[test]
fn a_failed_build_returns_to_the_unconfigured_state() {
    let mut app = App::new();
    assert_eq!(matrix_init_client(&mut app, demo_config()), Ok(true));
    configure_failed(&mut app);
    assert!(app.config.is_none());
    assert_eq!(matrix_is_logged_in(&app), Ok(false));
}

#[test]
fn login_needs_a_configured_session() {
    let app = App::new();
    let user = String::from("alice");
    let pass = String::from("SECRET-REDACTED");
    assert_eq!(login(&app, &user, &pass), Err(CoreError::NotInitialized));
    assert_eq!(register(&app, &user, &pass), Err(CoreError::NotInitialized));
    assert_eq!(
        matrix_login(&app, user.clone(), pass.clone()),
        Err(CoreError::NotInitialized)
    );
}

#[test]
fn login_outcome_drives_the_credential_state() {
    let mut app = App::new();
    assert_eq!(matrix_init_client(&mut app, demo_config()), Ok(true));
    let user = String::from("alice");
    let pass = String::from("SECRET-REDACTED");
    assert_eq!(matrix_login(&app, user, pass), Ok(true));

    // The engine rejected the attempt: a protocol failure, nothing changes.
    assert_eq!(login_completed(&mut app, false), Err(CoreError::ProtocolFailure));
    assert_eq!(is_client_authenticated(&app), Ok(false));

    // The engine accepted it: the session now holds a credential.
    assert_eq!(login_completed(&mut app, true), Ok(true));
    assert_eq!(is_client_authenticated(&app), Ok(true));
    assert_eq!(matrix_is_logged_in(&app), Ok(true));
}

#[test]
fn restored_credential_marks_the_session_authenticated() {
    let mut app = App::new();
    assert_eq!(matrix_init_client(&mut app, demo_config()), Ok(true));
    session_restored(&mut app, true);
    assert_eq!(matrix_is_logged_in(&app), Ok(true));
    session_restored(&mut app, false);
    assert_eq!(matrix_is_logged_in(&app), Ok(false));
}

#[test]
fn sign_out_clears_every_registry() {
    let mut app = App::new();
    assert_eq!(matrix_init_client(&mut app, demo_config()), Ok(true));
    session_restored(&mut app, true);
    app.status.set_message(String::from("syncing"));
    assert_eq!(matrix_logout(&app), Ok(true));
    assert_eq!(logout_completed(&mut app, true), Ok(true));
    assert!(app.config.is_none());
    assert!(!app.authenticated);
    assert_eq!(app.room_list.rooms.len(), 0);
    assert_eq!(app.room_list.room_infos.len(), 0);
    assert_eq!(app.timelines.entries.len(), 0);
    assert!(app.status.last_status_message.is_none());
    assert!(!app.sync_status.is_syncing);
    assert_eq!(app.sync_status.rooms_count, 0);
    assert_eq!(app.sync_status.messages_count, 0);
}

#[test]
fn a_rejected_remote_sign_out_changes_nothing() {
    let mut app = App::new();
    assert_eq!(matrix_init_client(&mut app, demo_config()), Ok(true));
    session_restored(&mut app, true);
    assert_eq!(logout_completed(&mut app, false), Err(CoreError::ProtocolFailure));
    assert!(app.config.is_some());
    assert!(app.authenticated);
}

#[test]
fn initial_sync_needs_configuration_and_credential() {
    let mut app = App::new();
    assert_eq!(matrix_perform_initial_sync(&app), Err(CoreError::NotInitialized));
    assert_eq!(matrix_init_client(&mut app, demo_config()), Ok(true));
    assert_eq!(matrix_perform_initial_sync(&app), Err(CoreError::NotAuthenticated));
    session_restored(&mut app, true);
    assert_eq!(matrix_perform_initial_sync(&app), Ok(true));
}

#[test]
fn sync_services_mark_the_process_as_syncing() {
    let mut app = App::new();
    assert_eq!(start_sync_service(&mut app), Err(CoreError::NotInitialized));
    assert_eq!(start_sliding_sync(&mut app), Err(CoreError::NotInitialized));
    assert_eq!(matrix_init_client(&mut app, demo_config()), Ok(true));
    assert_eq!(start_sliding_sync(&mut app), Err(CoreError::NotAuthenticated));
    assert!(!app.sync_status.is_syncing);
    assert_eq!(start_sync_service(&mut app), Ok(true));
    assert!(app.sync_status.is_syncing);
    session_restored(&mut app, true);
    assert_eq!(start_sliding_sync(&mut app), Ok(true));
    assert!(app.sync_status.is_syncing);
}

#[test]
fn error_categories_have_stable_text() {
    assert_eq!(CoreError::NotInitialized.message(), "not initialized");
    assert_eq!(CoreError::NotAuthenticated.message(), "not authenticated");
    assert_eq!(CoreError::RoomNotFound.message(), "room not found");
    assert_eq!(CoreError::ProtocolFailure.message(), "protocol failure");
    assert_eq!(CoreError::MalformedInput.message(), "malformed input");
}
