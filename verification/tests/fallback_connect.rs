use meeting_session::fallback::{
    after_primary_failure, connect_with_fallback, ConnectError, ConnectOutcome,
};
use meeting_session::models::AsrProvider;

#[test]
fn primary_failure_with_secondary_key_falls_back_with_reason() {
    let result = connect_with_fallback(
        AsrProvider::Aliyun,
        true,
        true,
        &ConnectOutcome::Failed("handshake timed out".to_string()),
        &ConnectOutcome::Connected,
    )
    .unwrap();
    assert!(matches!(result.provider, AsrProvider::Deepgram));
    assert_eq!(
        result.fallback_reason.as_deref(),
        Some("Aliyun failed, fallback to Deepgram: handshake timed out")
    );
}

#[test]
fn primary_failure_without_secondary_key_wraps_the_original_cause() {
    let result = connect_with_fallback(
        AsrProvider::Aliyun,
        true,
        false,
        &ConnectOutcome::Failed("handshake timed out".to_string()),
        &ConnectOutcome::Connected,
    );
    match result {
        Err(ConnectError::NoFallbackAvailable { message }) => {
            assert_eq!(
                message,
                "Aliyun unavailable and Deepgram key missing: handshake timed out"
            );
        },
        _ => panic!("expected NoFallbackAvailable"),
    }
}

#[test]
fn primary_success_needs_no_fallback() {
    let result = connect_with_fallback(
        AsrProvider::Aliyun,
        true,
        false,
        &ConnectOutcome::Connected,
        &ConnectOutcome::Failed("unused".to_string()),
    )
    .unwrap();
    assert!(matches!(result.provider, AsrProvider::Aliyun));
    assert!(result.fallback_reason.is_none());
}

#[test]
fn missing_primary_credentials_count_as_a_primary_failure() {
    let result = connect_with_fallback(
        AsrProvider::Aliyun,
        false,
        true,
        &ConnectOutcome::Connected,
        &ConnectOutcome::Connected,
    )
    .unwrap();
    assert!(matches!(result.provider, AsrProvider::Deepgram));
    assert_eq!(
        result.fallback_reason.as_deref(),
        Some("Aliyun failed, fallback to Deepgram: Aliyun credentials not configured")
    );
}

#[test]
fn secondary_preferred_without_key_is_missing_credentials() {
    let result = connect_with_fallback(
        AsrProvider::Deepgram,
        true,
        false,
        &ConnectOutcome::Connected,
        &ConnectOutcome::Connected,
    );
    match result {
        Err(ConnectError::MissingCredentials { message }) => {
            assert_eq!(message, "Deepgram key is required");
        },
        _ => panic!("expected MissingCredentials"),
    }
}

#[test]
fn secondary_preferred_has_no_fallback_path() {
    let result = connect_with_fallback(
        AsrProvider::Deepgram,
        true,
        true,
        &ConnectOutcome::Connected,
        &ConnectOutcome::Failed("refused".to_string()),
    );
    match result {
        Err(ConnectError::ConnectFailed { message }) => assert_eq!(message, "refused"),
        _ => panic!("expected ConnectFailed"),
    }
}

#[test]
fn secondary_connect_failure_after_fallback_is_terminal() {
    let result = connect_with_fallback(
        AsrProvider::Aliyun,
        true,
        true,
        &ConnectOutcome::Failed("a".to_string()),
        &ConnectOutcome::Failed("b".to_string()),
    );
    match result {
        Err(ConnectError::ConnectFailed { message }) => assert_eq!(message, "b"),
        _ => panic!("expected ConnectFailed"),
    }
}

#[test]
fn after_primary_failure_decides_by_key_presence() {
    assert_eq!(
        after_primary_failure("boom", true).unwrap(),
        "Aliyun failed, fallback to Deepgram: boom"
    );
    match after_primary_failure("boom", false) {
        Err(ConnectError::NoFallbackAvailable { message }) => {
            assert_eq!(message, "Aliyun unavailable and Deepgram key missing: boom");
        },
        _ => panic!("expected NoFallbackAvailable"),
    }
}

#[test]
fn connect_error_messages_are_exposed() {
    let error = ConnectError::ConnectFailed { message: "m".to_string() };
    assert_eq!(error.message(), "m");
}
