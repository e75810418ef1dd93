use meeting_session::fallback::{connect_with_fallback, AsrConnectionSummary, ConnectOutcome};
use meeting_session::models::{AsrProvider, SessionLifecycleState};
use meeting_session::session::{
    fallback_notice, forward_step, forwarding_failed_event, hint_failed_event, running_event,
    send_failed_event, ForwardAction, ForwardInput, SessionManager, StartError,
};

#[test]
fn second_start_fails_and_leaves_the_first_untouched() {
    let mut manager = SessionManager::new();
    assert!(!manager.is_running());
    let first = manager.register("session-one".to_string(), AsrProvider::Aliyun).unwrap();
    assert_eq!(first.session_id, "session-one");
    assert!(manager.is_running());

    let begin = manager.begin_start(&"session-two".to_string(), AsrProvider::Aliyun);
    assert!(matches!(begin, Err(StartError::AlreadyRunning)));
    let second = manager.register("session-two".to_string(), AsrProvider::Deepgram);
    assert!(matches!(second, Err(StartError::AlreadyRunning)));

    // The held session is exactly the first one.
    let stopped = manager.stop().unwrap();
    assert_eq!(stopped.session_id, "session-one");
    assert!(matches!(stopped.provider, AsrProvider::Aliyun));
}

#[test]
fn stop_is_idempotent_and_emits_at_most_one_stopped_event() {
    let mut manager = SessionManager::new();
    // Stopping with nothing held is a quiet no-op.
    assert!(manager.stop().is_none());

    manager.register("s".to_string(), AsrProvider::Deepgram).unwrap();
    let first = manager.stop();
    let second = manager.stop();
    assert!(first.is_some());
    let event = first.unwrap();
    assert!(matches!(event.state, SessionLifecycleState::Stopped));
    assert_eq!(event.message, "Session stopped");
    assert!(second.is_none());
    assert!(!manager.is_running());
}

#[test]
fn begin_start_emits_the_starting_event() {
    let manager = SessionManager::new();
    let event = manager.begin_start(&"sid".to_string(), AsrProvider::Aliyun).unwrap();
    assert!(matches!(event.state, SessionLifecycleState::Starting));
    assert_eq!(event.session_id, "sid");
    assert_eq!(event.message, "Starting microphone live session");
    assert!(event.degraded_mode);
}

#[test]
fn scenario_primary_reachable_runs_on_primary_without_fallback_error() {
    let mut manager = SessionManager::new();
    let session_id = "sid-primary".to_string();
    let starting = manager.begin_start(&session_id, AsrProvider::Aliyun).unwrap();
    assert!(matches!(starting.provider, AsrProvider::Aliyun));

    let connection = connect_with_fallback(
        AsrProvider::Aliyun,
        true,
        true,
        &ConnectOutcome::Connected,
        &ConnectOutcome::Connected,
    )
    .unwrap();
    assert!(matches!(connection.provider, AsrProvider::Aliyun));
    // No fallback happened, so no recoverable error event is owed.
    assert!(fallback_notice(&connection).is_none());

    let running = running_event(&session_id, connection.provider);
    assert!(matches!(running.state, SessionLifecycleState::Running));
    assert!(matches!(running.provider, AsrProvider::Aliyun));
    assert_eq!(running.message, "Session running in microphone-only mode (Aliyun Tingwu)");

    let result = manager.register(session_id, connection.provider).unwrap();
    assert!(matches!(result.provider, AsrProvider::Aliyun));
    assert!(result.degraded_mode);
    assert_eq!(result.message, "System loopback is unavailable in MVP. Using microphone only.");
}

#[test]
fn scenario_primary_misconfigured_falls_back_with_one_error_before_running() {
    let mut manager = SessionManager::new();
    let session_id = "sid-fallback".to_string();
    manager.begin_start(&session_id, AsrProvider::Aliyun).unwrap();

    // Primary credentials absent, secondary configured and reachable.
    let connection = connect_with_fallback(
        AsrProvider::Aliyun,
        false,
        true,
        &ConnectOutcome::Connected,
        &ConnectOutcome::Connected,
    )
    .unwrap();
    assert!(matches!(connection.provider, AsrProvider::Deepgram));

    // Exactly one fallback error is surfaced, before the Running event.
    let notice = fallback_notice(&connection).unwrap();
    assert_eq!(notice.code, "ASR_PROVIDER_FALLBACK");
    assert!(notice.recoverable);
    assert_eq!(
        notice.message,
        "Aliyun failed, fallback to Deepgram: Aliyun credentials not configured"
    );

    let running = running_event(&session_id, connection.provider);
    assert!(matches!(running.provider, AsrProvider::Deepgram));
    assert_eq!(running.message, "Session running in microphone-only mode (Deepgram fallback)");

    manager.register(session_id, connection.provider).unwrap();
    assert!(manager.is_running());
}

#[test]
fn fallback_notice_carries_the_reason_text() {
    let summary = AsrConnectionSummary {
        provider: AsrProvider::Deepgram,
        fallback_reason: Some("why".to_string()),
    };
    let notice = fallback_notice(&summary).unwrap();
    assert_eq!(notice.message, "why");
    assert_eq!(notice.source, "asr");
    assert!(matches!(notice.provider, Some(AsrProvider::Deepgram)));
}

#[test]
fn forwarding_decisions() {
    assert!(matches!(forward_step(ForwardInput::Cancelled), ForwardAction::CloseAndExit));
    assert!(matches!(forward_step(ForwardInput::ChannelClosed), ForwardAction::CloseAndExit));
    match forward_step(ForwardInput::Chunk(vec![1, 2, 3])) {
        ForwardAction::Send(chunk) => assert_eq!(chunk, vec![1, 2, 3]),
        ForwardAction::CloseAndExit => panic!("a chunk must be forwarded"),
    }
}

#[test]
fn send_failure_events() {
    let error = send_failed_event("socket closed", AsrProvider::Deepgram);
    assert_eq!(error.code, "ASR_SEND_FAILED");
    assert_eq!(error.message, "failed to send audio: socket closed");
    assert!(error.recoverable);
    assert_eq!(error.source, "audio");

    let state = forwarding_failed_event(&"sid".to_string(), AsrProvider::Deepgram);
    assert!(matches!(state.state, SessionLifecycleState::Error));
    assert_eq!(state.message, "Audio forwarding failed");
}

#[test]
fn hint_failure_event_is_recoverable() {
    let error = hint_failed_event("model overloaded", AsrProvider::Aliyun);
    assert_eq!(error.code, "HINT_ENGINE_FAILED");
    assert_eq!(error.message, "failed to generate answer hint: model overloaded");
    assert!(error.recoverable);
    assert_eq!(error.source, "llm");
}

#[test]
fn start_error_messages() {
    assert_eq!(StartError::AlreadyRunning.message(), "a live session is already running");
    let device = StartError::AudioDevice { message: "no microphone device available".to_string() };
    assert_eq!(device.message(), "no microphone device available");
}
