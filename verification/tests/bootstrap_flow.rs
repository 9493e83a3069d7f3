use matrix_client_boilerplate::bootstrap::{
    BootstrapAction, BootstrapEvent, BootstrapPhase, bootstrap_start, bootstrap_step,
};
use matrix_client_boilerplate::errors::Error;
use matrix_client_boilerplate::session::{SessionRecord, decode_session, encode_session};
use matrix_client_boilerplate::sync_state::SyncTokenState;

fn record(user: &str, device: &str, token: &str) -> SessionRecord {
    SessionRecord {
        user_id: user.to_string(),
        device_id: device.to_string(),
        access_token: token.to_string(),
        refresh_token: None,
    }
}

#[test]
fn an_invalid_identity_fails_before_any_action() {
    let r = bootstrap_start("notanid", "pw", "bot1");
    assert!(matches!(r, Err(Error::InvalidIdentity)));
}

#[test]
fn fresh_login_happens_exactly_once_and_saves_one_file() {
    let (phase, action) = bootstrap_start("@alice:example.org", "pw", "bot1").unwrap();
    assert!(matches!(action, BootstrapAction::CreateStorageDir));

    let (phase, action) = bootstrap_step(phase, BootstrapEvent::DirCreated);
    match &action {
        Some(BootstrapAction::BuildClient { server_name }) => {
            assert_eq!(server_name, "example.org")
        },
        other => panic!("expected a client build, got {:?}", other.is_some()),
    }

    let (phase, action) = bootstrap_step(phase, BootstrapEvent::ClientBuilt);
    assert!(matches!(action, Some(BootstrapAction::ReadSessionFile)));

    let (phase, action) = bootstrap_step(phase, BootstrapEvent::SessionFileAbsent);
    match &action {
        Some(BootstrapAction::FreshLogin { localpart, password, device_name }) => {
            assert_eq!(localpart, "alice");
            assert_eq!(password, "pw");
            assert_eq!(device_name, "bot1");
        },
        _ => panic!("expected exactly one interactive login"),
    }

    let established = record("@alice:example.org", "DEV1", "tok");
    let (phase, action) = bootstrap_step(
        phase,
        BootstrapEvent::LoginSucceeded { record: established },
    );
    let contents = match action {
        Some(BootstrapAction::SaveSessionFile { contents }) => contents,
        _ => panic!("expected exactly one session save"),
    };
    let saved = decode_session(&contents).unwrap();
    assert_eq!(saved.user_id, "@alice:example.org");
    assert_eq!(saved.device_id, "DEV1");
    assert_eq!(saved.access_token, "tok");

    let (phase, action) = bootstrap_step(phase, BootstrapEvent::SessionSaved);
    assert!(action.is_none());
    assert!(matches!(phase, BootstrapPhase::Ready { .. }));
}

#[test]
fn a_valid_session_file_resumes_without_the_password() {
    let stored = record("@alice:example.org", "OLDDEV", "oldtok");
    let file_text = encode_session(&stored);

    let (phase, _) = bootstrap_start("@alice:example.org", "pw", "bot1").unwrap();
    let (phase, _) = bootstrap_step(phase, BootstrapEvent::DirCreated);
    let (phase, _) = bootstrap_step(phase, BootstrapEvent::ClientBuilt);
    let (phase, action) = bootstrap_step(
        phase,
        BootstrapEvent::SessionFileFound { contents: file_text },
    );
    match &action {
        Some(BootstrapAction::ResumeLogin { record }) => {
            assert_eq!(record.device_id, "OLDDEV");
            assert_eq!(record.access_token, "oldtok");
        },
        _ => panic!("expected a resume login"),
    }
    assert!(matches!(phase, BootstrapPhase::LoggingInResume));

    let relogged = record("@alice:example.org", "OLDDEV", "newtok");
    let (phase, action) = bootstrap_step(phase, BootstrapEvent::LoginSucceeded { record: relogged });
    assert!(matches!(action, Some(BootstrapAction::SaveSessionFile { .. })));
    let (phase, action) = bootstrap_step(phase, BootstrapEvent::SessionSaved);
    assert!(action.is_none());
    assert!(matches!(phase, BootstrapPhase::Ready { .. }));
}

#[test]
fn a_corrupt_session_file_fails_and_never_falls_back() {
    let (phase, _) = bootstrap_start("@alice:example.org", "pw", "bot1").unwrap();
    let (phase, _) = bootstrap_step(phase, BootstrapEvent::DirCreated);
    let (phase, _) = bootstrap_step(phase, BootstrapEvent::ClientBuilt);
    let (phase, action) = bootstrap_step(
        phase,
        BootstrapEvent::SessionFileFound { contents: "{ not a session }".to_string() },
    );
    assert!(action.is_none());
    assert!(matches!(phase, BootstrapPhase::Failed { error: Error::CorruptSession }));

    let (phase, action) = bootstrap_step(phase, BootstrapEvent::SessionFileAbsent);
    assert!(action.is_none(), "a failed construction must not retry");
    assert!(matches!(phase, BootstrapPhase::Failed { error: Error::CorruptSession }));
}

#[test]
fn a_rejected_login_fails_with_auth_error() {
    let (phase, _) = bootstrap_start("@alice:example.org", "badpw", "bot1").unwrap();
    let (phase, _) = bootstrap_step(phase, BootstrapEvent::DirCreated);
    let (phase, _) = bootstrap_step(phase, BootstrapEvent::ClientBuilt);
    let (phase, _) = bootstrap_step(phase, BootstrapEvent::SessionFileAbsent);
    let (phase, action) = bootstrap_step(phase, BootstrapEvent::LoginRejected);
    assert!(action.is_none());
    assert!(matches!(phase, BootstrapPhase::Failed { error: Error::AuthError }));
}

#[test]
fn filesystem_failures_surface_as_io_errors() {
    let (phase, _) = bootstrap_start("@alice:example.org", "pw", "bot1").unwrap();
    let (phase, action) = bootstrap_step(phase, BootstrapEvent::DirFailed);
    assert!(action.is_none());
    assert!(matches!(phase, BootstrapPhase::Failed { error: Error::IoError }));

    let (phase, _) = bootstrap_start("@alice:example.org", "pw", "bot1").unwrap();
    let (phase, _) = bootstrap_step(phase, BootstrapEvent::DirCreated);
    let (phase, _) = bootstrap_step(phase, BootstrapEvent::ClientBuilt);
    let (phase, _) = bootstrap_step(phase, BootstrapEvent::SessionFileAbsent);
    let established = record("@alice:example.org", "DEV1", "tok");
    let (phase, _) = bootstrap_step(phase, BootstrapEvent::LoginSucceeded { record: established });
    let (phase, action) = bootstrap_step(phase, BootstrapEvent::SessionSaveFailed);
    assert!(action.is_none());
    assert!(matches!(phase, BootstrapPhase::Failed { error: Error::IoError }));
}

#[test]
fn a_client_construction_failure_surfaces() {
    let (phase, _) = bootstrap_start("@alice:example.org", "pw", "bot1").unwrap();
    let (phase, _) = bootstrap_step(phase, BootstrapEvent::DirCreated);
    let (phase, action) = bootstrap_step(phase, BootstrapEvent::ClientFailed);
    assert!(action.is_none());
    assert!(matches!(phase, BootstrapPhase::Failed { error: Error::ClientInitError }));
}

#[test]
fn a_failed_catch_up_is_a_sync_error_and_keeps_the_token() {
    let mut sync = SyncTokenState::new();
    let r = sync.apply_catch_up(None);
    assert!(matches!(r, Err(Error::SyncError)));
    assert!(sync.background_start_token().is_none());

    sync.apply_catch_up(Some("batch-1".to_string())).unwrap();
    let r = sync.apply_catch_up(None);
    assert!(matches!(r, Err(Error::SyncError)));
    assert_eq!(sync.background_start_token(), Some("batch-1".to_string()));
}

#[test]
fn a_successful_catch_up_records_the_token() {
    let mut sync = SyncTokenState::new();
    sync.apply_catch_up(Some("s1".to_string())).unwrap();
    assert_eq!(sync.background_start_token(), Some("s1".to_string()));
    sync.apply_catch_up(Some("s2".to_string())).unwrap();
    assert_eq!(sync.background_start_token(), Some("s2".to_string()));
}

#[test]
fn each_error_has_a_description() {
    assert_eq!(Error::InvalidIdentity.describe(), "invalid identity");
    assert_eq!(Error::IoError.describe(), "filesystem failure");
    assert_eq!(Error::CorruptSession.describe(), "corrupt session file");
    assert_eq!(Error::ClientInitError.describe(), "client initialisation failure");
    assert_eq!(Error::AuthError.describe(), "login rejected");
    assert_eq!(Error::SyncError.describe(), "synchronisation failure");
}

#[test]
fn the_sync_token_seeds_the_background_loop() {
    let mut sync = SyncTokenState::new();
    assert!(sync.background_start_token().is_none());
    sync.record_token("batch-1".to_string());
    assert_eq!(sync.background_start_token(), Some("batch-1".to_string()));
    sync.record_token("batch-2".to_string());
    assert_eq!(sync.background_start_token(), Some("batch-2".to_string()));
}

#[test]
fn end_to_end_fresh_start_then_sync() {
    let (phase, action) = bootstrap_start("@alice:example.org", "pw", "bot1").unwrap();
    assert!(matches!(action, BootstrapAction::CreateStorageDir));
    let (phase, _) = bootstrap_step(phase, BootstrapEvent::DirCreated);
    let (phase, _) = bootstrap_step(phase, BootstrapEvent::ClientBuilt);
    let (phase, action) = bootstrap_step(phase, BootstrapEvent::SessionFileAbsent);
    assert!(matches!(action, Some(BootstrapAction::FreshLogin { .. })));
    let established = record("@alice:example.org", "bot1-device", "syt_token");
    let (phase, action) = bootstrap_step(phase, BootstrapEvent::LoginSucceeded { record: established });
    let contents = match action {
        Some(BootstrapAction::SaveSessionFile { contents }) => contents,
        _ => panic!("expected a session save"),
    };
    assert!(decode_session(&contents).is_ok(), "the saved file must parse");
    let (phase, _) = bootstrap_step(phase, BootstrapEvent::SessionSaved);
    assert!(matches!(phase, BootstrapPhase::Ready { .. }));

    let mut sync = SyncTokenState::new();
    sync.record_token("s72594_4483_1934".to_string());
    let seed = sync.background_start_token();
    assert!(seed.is_some());
    assert!(!seed.unwrap().is_empty());
}
