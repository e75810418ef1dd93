//! Session lifecycle: the single-session-at-a-time manager, the events each
//! lifecycle transition broadcasts, and the decisions of the audio
//! forwarding task. The manager's model is `Option<(session id, provider)>`:
//! `None` when nothing runs. Outside work (connecting, capture, sending)
//! happens between these calls; its outcomes are handed in as plain values.
use vstd::prelude::*;

use crate::fallback::{AsrConnectionSummary, ConnectError};
use crate::models::{AsrProvider, RuntimeErrorEvent, SessionLifecycleState, SessionStartResult,
    SessionStateEvent};

verus! {

/// The session held by the manager while it runs.
#[derive(Debug, Clone)]
pub struct RunningSession {
    pub session_id: String,
    pub provider: AsrProvider,
}

/// Enforces that at most one live session exists; `start` is a
/// compare-and-swap on this handle and `stop` an idempotent clear.
#[derive(Debug)]
pub struct SessionManager {
    pub running: Option<RunningSession>,
}

impl View for SessionManager {
    type V = Option<(Seq<char>, AsrProvider)>;

    open spec fn view(&self) -> Option<(Seq<char>, AsrProvider)> {
        match self.running {
            Some(r) => Some((r.session_id@, r.provider)),
            None => None,
        }
    }
}

/// Why `start` failed; no session is registered in any of these cases.
#[derive(Debug, Clone)]
pub enum StartError {
    /// A session is already held; the held one is untouched.
    AlreadyRunning,
    /// The input device could not be resolved or its capture not started.
    AudioDevice { message: String },
    /// Neither provider yielded a connection.
    Provider(ConnectError),
}

impl StartError {
    /// The human-readable description of this error.
    pub fn message(&self) -> (r: String)
        ensures
            r@ == self.spec_message(),
    {
        match self {
            StartError::AlreadyRunning => String::from_str("a live session is already running"),
            StartError::AudioDevice { message } => message.clone(),
            StartError::Provider(e) => e.message().clone(),
        }
    }

    /// The description, at the specification level.
    pub open spec fn spec_message(self) -> Seq<char> {
        match self {
            StartError::AlreadyRunning => "a live session is already running"@,
            StartError::AudioDevice { message } => message@,
            StartError::Provider(e) => e.spec_message(),
        }
    }
}

/// Message broadcast when a session begins starting.
pub open spec fn starting_message() -> Seq<char> {
    "Starting microphone live session"@
}

/// Message broadcast once a session runs, naming the active provider.
pub open spec fn running_message(provider: AsrProvider) -> Seq<char> {
    if provider == AsrProvider::Aliyun {
        "Session running in microphone-only mode (Aliyun Tingwu)"@
    } else {
        "Session running in microphone-only mode (Deepgram fallback)"@
    }
}

/// Message broadcast when a session has fully stopped.
pub open spec fn stopped_message() -> Seq<char> {
    "Session stopped"@
}

/// Message handed back to the caller of a successful `start`.
pub open spec fn start_result_message() -> Seq<char> {
    "System loopback is unavailable in MVP. Using microphone only."@
}

/// Registering a session: refused while one is held, else the slot is
/// filled. The model of the manager before and after, and the outcome.
pub open spec fn spec_register(
    v: Option<(Seq<char>, AsrProvider)>,
    session_id: Seq<char>,
    provider: AsrProvider,
) -> (Option<(Seq<char>, AsrProvider)>, bool) {
    match v {
        Some(_) => (v, false),
        None => (Some((session_id, provider)), true),
    }
}

/// Stopping: the slot is cleared whatever it held; a `Stopped` event is
/// owed exactly when a session was held, for that session.
pub open spec fn spec_stop(v: Option<(Seq<char>, AsrProvider)>) -> (
    Option<(Seq<char>, AsrProvider)>,
    Option<(Seq<char>, AsrProvider)>,
) {
    (None, v)
}

impl SessionManager {
    /// A manager holding no session.
    pub fn new() -> (r: Self)
        ensures
            r@ is None,
    {
        SessionManager { running: None }
    }

    /// Whether a session is held right now.
    pub fn is_running(&self) -> (r: bool)
        ensures
            r == (self@ is Some),
    {
        self.running.is_some()
    }

    /// First step of `start`: refused outright while a session is held;
    /// otherwise the `Starting` transition event to broadcast.
    pub fn begin_start(&self, session_id: &String, preferred: AsrProvider) -> (r: Result<
        SessionStateEvent,
        StartError,
    >)
        ensures
            self@ is Some ==> r matches Err(StartError::AlreadyRunning),
            self@ is None ==> (r matches Ok(e) && e.session_id@ == session_id@ && e.state
                == SessionLifecycleState::Starting && e.message@ == starting_message()
                && e.degraded_mode && e.provider == preferred),
    {
        if self.running.is_some() {
            return Err(StartError::AlreadyRunning);
        }
        Ok(
            SessionStateEvent {
                session_id: session_id.clone(),
                state: SessionLifecycleState::Starting,
                message: String::from_str("Starting microphone live session"),
                degraded_mode: true,
                provider: preferred,
            },
        )
    }

    /// Last step of `start`: registers the session and hands the caller its
    /// result. Registration follows `spec_register`: a held session is left
    /// untouched and the call fails.
    pub fn register(&mut self, session_id: String, provider: AsrProvider) -> (r: Result<
        SessionStartResult,
        StartError,
    >)
        ensures
            final(self)@ == spec_register(old(self)@, session_id@, provider).0,
            r is Ok == spec_register(old(self)@, session_id@, provider).1,
            old(self)@ is Some ==> r matches Err(StartError::AlreadyRunning),
            old(self)@ is None ==> (r matches Ok(res) && res.session_id@ == session_id@
                && res.degraded_mode && res.message@ == start_result_message() && res.provider
                == provider),
    {
        if self.running.is_some() {
            return Err(StartError::AlreadyRunning);
        }
        let result = SessionStartResult {
            session_id: session_id.clone(),
            degraded_mode: true,
            message: String::from_str("System loopback is unavailable in MVP. Using microphone only."),
            provider,
        };
        self.running = Some(RunningSession { session_id, provider });
        Ok(result)
    }

    /// Idempotent stop, following `spec_stop`: clears the slot and returns
    /// the `Stopped` event owed for the prior session, or nothing when no
    /// session was held. It never fails.
    pub fn stop(&mut self) -> (r: Option<SessionStateEvent>)
        ensures
            final(self)@ == spec_stop(old(self)@).0,
            old(self)@ is None ==> r is None,
            old(self)@ matches Some(prior) ==> (r matches Some(e) && e.session_id@ == prior.0
                && e.state == SessionLifecycleState::Stopped && e.message@ == stopped_message()
                && e.degraded_mode && e.provider == prior.1),
    {
        match self.running.take() {
            None => None,
            Some(running) => Some(
                SessionStateEvent {
                    session_id: running.session_id,
                    state: SessionLifecycleState::Stopped,
                    message: String::from_str("Session stopped"),
                    degraded_mode: true,
                    provider: running.provider,
                },
            ),
        }
    }
}

/// At most one session is ever held, and an attempt to register a second
/// one fails while leaving the held session exactly as it was.
pub proof fn lemma_single_session(
    v: Option<(Seq<char>, AsrProvider)>,
    session_id: Seq<char>,
    provider: AsrProvider,
)
    requires
        v is Some,
    ensures
        spec_register(v, session_id, provider).0 == v,
        !spec_register(v, session_id, provider).1,
{
}

/// Stopping is idempotent: a second stop in a row clears nothing further,
/// owes no second `Stopped` event, and never fails; so at most one
/// `Stopped` event arises per prior session.
pub proof fn lemma_stop_idempotent(v: Option<(Seq<char>, AsrProvider)>)
    ensures
        spec_stop(v).0 is None,
        spec_stop(spec_stop(v).0).1 is None,
        v is None ==> spec_stop(v).1 is None,
{
}

/// The recoverable event surfaced when a connection was obtained through
/// fallback; nothing is owed for a direct connection.
pub fn fallback_notice(summary: &AsrConnectionSummary) -> (r: Option<RuntimeErrorEvent>)
    ensures
        summary.fallback_reason matches Some(reason) ==> (r matches Some(e) && e.code@
            == "ASR_PROVIDER_FALLBACK"@ && e.message@ == reason@ && e.recoverable && e.provider
            == Some(summary.provider) && e.source@ == "asr"@),
        summary.fallback_reason is None ==> r is None,
{
    match &summary.fallback_reason {
        Some(reason) => Some(
            RuntimeErrorEvent {
                code: String::from_str("ASR_PROVIDER_FALLBACK"),
                message: reason.clone(),
                recoverable: true,
                provider: Some(summary.provider),
                source: String::from_str("asr"),
            },
        ),
        None => None,
    }
}

/// The `Running` transition event, naming the active provider and the
/// degraded (microphone-only) mode.
pub fn running_event(session_id: &String, provider: AsrProvider) -> (r: SessionStateEvent)
    ensures
        r.session_id@ == session_id@,
        r.state == SessionLifecycleState::Running,
        r.message@ == running_message(provider),
        r.degraded_mode,
        r.provider == provider,
{
    let message = if provider == AsrProvider::Aliyun {
        String::from_str("Session running in microphone-only mode (Aliyun Tingwu)")
    } else {
        String::from_str("Session running in microphone-only mode (Deepgram fallback)")
    };
    SessionStateEvent {
        session_id: session_id.clone(),
        state: SessionLifecycleState::Running,
        message,
        degraded_mode: true,
        provider,
    }
}

/// What the forwarding task reacted to at one suspension point.
#[derive(Debug)]
pub enum ForwardInput {
    /// The shared cancellation signal fired (or its channel closed).
    Cancelled,
    /// The audio channel ended: no producer remains.
    ChannelClosed,
    /// One captured PCM chunk arrived.
    Chunk(Vec<i16>),
}

/// What the forwarding task must do next.
#[derive(Debug)]
pub enum ForwardAction {
    /// Close the provider sender and exit the loop.
    CloseAndExit,
    /// Send this chunk to the provider.
    Send(Vec<i16>),
}

/// The forwarding task's decision at each suspension point: cancellation
/// and channel end both close the sender and exit; a chunk is forwarded.
pub fn forward_step(input: ForwardInput) -> (r: ForwardAction)
    ensures
        input is Cancelled ==> r is CloseAndExit,
        input is ChannelClosed ==> r is CloseAndExit,
        input matches ForwardInput::Chunk(c) ==> (r matches ForwardAction::Send(s) && s@ == c@),
{
    match input {
        ForwardInput::Cancelled => ForwardAction::CloseAndExit,
        ForwardInput::ChannelClosed => ForwardAction::CloseAndExit,
        ForwardInput::Chunk(chunk) => ForwardAction::Send(chunk),
    }
}

/// The advisory error reported when sending audio to the provider failed.
pub fn send_failed_event(error_text: &str, provider: AsrProvider) -> (r: RuntimeErrorEvent)
    ensures
        r.code@ == "ASR_SEND_FAILED"@,
        r.message@ == "failed to send audio: "@ + error_text@,
        r.recoverable,
        r.provider == Some(provider),
        r.source@ == "audio"@,
{
    let mut message = String::from_str("failed to send audio: ");
    message.append(error_text);
    RuntimeErrorEvent {
        code: String::from_str("ASR_SEND_FAILED"),
        message,
        recoverable: true,
        provider: Some(provider),
        source: String::from_str("audio"),
    }
}

/// The `Error` transition event that follows a send failure; only the
/// forwarding stops — the transcript task drains the provider stream on
/// its own.
pub fn forwarding_failed_event(session_id: &String, provider: AsrProvider) -> (r: SessionStateEvent)
    ensures
        r.session_id@ == session_id@,
        r.state == SessionLifecycleState::Error,
        r.message@ == "Audio forwarding failed"@,
        r.degraded_mode,
        r.provider == provider,
{
    SessionStateEvent {
        session_id: session_id.clone(),
        state: SessionLifecycleState::Error,
        message: String::from_str("Audio forwarding failed"),
        degraded_mode: true,
        provider,
    }
}

/// The advisory error reported when hint generation failed; hint failures
/// are never fatal.
pub fn hint_failed_event(error_text: &str, provider: AsrProvider) -> (r: RuntimeErrorEvent)
    ensures
        r.code@ == "HINT_ENGINE_FAILED"@,
        r.message@ == "failed to generate answer hint: "@ + error_text@,
        r.recoverable,
        r.provider == Some(provider),
        r.source@ == "llm"@,
{
    let mut message = String::from_str("failed to generate answer hint: ");
    message.append(error_text);
    RuntimeErrorEvent {
        code: String::from_str("HINT_ENGINE_FAILED"),
        message,
        recoverable: true,
        provider: Some(provider),
        source: String::from_str("llm"),
    }
}

} // verus!
