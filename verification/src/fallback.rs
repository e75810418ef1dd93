//! Provider fallback: try the preferred recognition backend, and when the
//! primary one cannot be reached, fall through to the secondary one while
//! recording a human-readable reason. The network attempts themselves are
//! outside work; their outcomes are handed in as plain values, and every
//! decision about them is made here.
use vstd::prelude::*;

use crate::models::AsrProvider;

verus! {

/// Outcome of one outside connect attempt.
#[derive(Debug, Clone)]
pub enum ConnectOutcome {
    Connected,
    Failed(String),
}

/// Why no connection could be produced.
#[derive(Debug, Clone)]
pub enum ConnectError {
    /// The preferred provider was the secondary one and its key is absent.
    MissingCredentials { message: String },
    /// The primary provider failed and no secondary credential exists;
    /// the message wraps the original failure.
    NoFallbackAvailable { message: String },
    /// The attempted connection itself failed with no fallback left to try.
    ConnectFailed { message: String },
}

impl ConnectError {
    /// The human-readable description of this error.
    pub fn message(&self) -> (r: &String)
        ensures
            r@ == self.spec_message(),
    {
        match self {
            ConnectError::MissingCredentials { message } => message,
            ConnectError::NoFallbackAvailable { message } => message,
            ConnectError::ConnectFailed { message } => message,
        }
    }

    /// The description, at the specification level.
    pub open spec fn spec_message(self) -> Seq<char> {
        match self {
            ConnectError::MissingCredentials { message } => message@,
            ConnectError::NoFallbackAvailable { message } => message@,
            ConnectError::ConnectFailed { message } => message@,
        }
    }
}

/// What a successful connection looks like to the session: the provider in
/// use and, when the preferred one was substituted, the reason.
#[derive(Debug, Clone)]
pub struct AsrConnectionSummary {
    pub provider: AsrProvider,
    pub fallback_reason: Option<String>,
}

/// The primary-provider failure text when its credentials are absent.
pub open spec fn missing_aliyun_message() -> Seq<char> {
    "Aliyun credentials not configured"@
}

/// The error text when the secondary key is missing yet required directly.
pub open spec fn missing_deepgram_message() -> Seq<char> {
    "Deepgram key is required"@
}

/// The wrapped error text when the primary failed and no fallback exists.
pub open spec fn no_fallback_message(cause: Seq<char>) -> Seq<char> {
    "Aliyun unavailable and Deepgram key missing: "@ + cause
}

/// The reason recorded on a connection obtained through fallback.
pub open spec fn fallback_reason_message(cause: Seq<char>) -> Seq<char> {
    "Aliyun failed, fallback to Deepgram: "@ + cause
}

/// Why the primary attempt produced no connection: absent credentials are
/// treated as a failure of the attempt, exactly like a failed connect.
pub open spec fn spec_primary_error(has_aliyun_secrets: bool, outcome: ConnectOutcome) -> Option<
    Seq<char>,
> {
    if !has_aliyun_secrets {
        Some(missing_aliyun_message())
    } else {
        match outcome {
            ConnectOutcome::Connected => None,
            ConnectOutcome::Failed(e) => Some(e@),
        }
    }
}

/// Decides what follows a primary-provider failure: with a secondary key a
/// fallback reason wrapping the cause, without one a terminal error that
/// still carries the cause.
pub fn after_primary_failure(cause: &str, has_deepgram_key: bool) -> (r: Result<
    String,
    ConnectError,
>)
    ensures
        has_deepgram_key ==> (r matches Ok(reason) && reason@ == fallback_reason_message(cause@)),
        !has_deepgram_key ==> (r matches Err(ConnectError::NoFallbackAvailable { message })
            && message@ == no_fallback_message(cause@)),
{
    if has_deepgram_key {
        let mut reason = String::from_str("Aliyun failed, fallback to Deepgram: ");
        reason.append(cause);
        Ok(reason)
    } else {
        let mut message = String::from_str("Aliyun unavailable and Deepgram key missing: ");
        message.append(cause);
        Err(ConnectError::NoFallbackAvailable { message })
    }
}

/// Exactly what the connector must return for given credentials and
/// attempt outcomes.
pub open spec fn connect_spec(
    preferred: AsrProvider,
    has_aliyun_secrets: bool,
    has_deepgram_key: bool,
    aliyun_outcome: ConnectOutcome,
    deepgram_outcome: ConnectOutcome,
    r: Result<AsrConnectionSummary, ConnectError>,
) -> bool {
    match preferred {
        AsrProvider::Deepgram => {
            if !has_deepgram_key {
                r matches Err(ConnectError::MissingCredentials { message }) && message@
                    == missing_deepgram_message()
            } else {
                match deepgram_outcome {
                    ConnectOutcome::Connected => r matches Ok(c) && c.provider
                        == AsrProvider::Deepgram && c.fallback_reason is None,
                    ConnectOutcome::Failed(e) => r matches Err(
                        ConnectError::ConnectFailed { message },
                    ) && message@ == e@,
                }
            }
        },
        AsrProvider::Aliyun => {
            match spec_primary_error(has_aliyun_secrets, aliyun_outcome) {
                None => r matches Ok(c) && c.provider == AsrProvider::Aliyun && c.fallback_reason
                    is None,
                Some(cause) => {
                    if !has_deepgram_key {
                        r matches Err(ConnectError::NoFallbackAvailable { message }) && message@
                            == no_fallback_message(cause)
                    } else {
                        match deepgram_outcome {
                            ConnectOutcome::Connected => {
                                &&& r matches Ok(c)
                                &&& c.provider == AsrProvider::Deepgram
                                &&& c.fallback_reason matches Some(reason)
                                &&& reason@ == fallback_reason_message(cause)
                            },
                            ConnectOutcome::Failed(e) => r matches Err(
                                ConnectError::ConnectFailed { message },
                            ) && message@ == e@,
                        }
                    }
                },
            }
        },
    }
}

/// The whole connector as a function of the attempt outcomes. The outcome
/// arguments describe what the corresponding outside attempt did (or would
/// have done); an outcome that the decision path never reaches is ignored.
pub fn connect_with_fallback(
    preferred: AsrProvider,
    has_aliyun_secrets: bool,
    has_deepgram_key: bool,
    aliyun_outcome: &ConnectOutcome,
    deepgram_outcome: &ConnectOutcome,
) -> (r: Result<AsrConnectionSummary, ConnectError>)
    ensures
        connect_spec(
            preferred,
            has_aliyun_secrets,
            has_deepgram_key,
            *aliyun_outcome,
            *deepgram_outcome,
            r,
        ),
{
    match preferred {
        AsrProvider::Deepgram => {
            if !has_deepgram_key {
                return Err(
                    ConnectError::MissingCredentials {
                        message: String::from_str("Deepgram key is required"),
                    },
                );
            }
            match deepgram_outcome {
                ConnectOutcome::Connected => Ok(
                    AsrConnectionSummary { provider: AsrProvider::Deepgram, fallback_reason: None },
                ),
                ConnectOutcome::Failed(e) => Err(
                    ConnectError::ConnectFailed { message: e.clone() },
                ),
            }
        },
        AsrProvider::Aliyun => {
            let cause: String = if !has_aliyun_secrets {
                String::from_str("Aliyun credentials not configured")
            } else {
                match aliyun_outcome {
                    ConnectOutcome::Connected => {
                        return Ok(
                            AsrConnectionSummary {
                                provider: AsrProvider::Aliyun,
                                fallback_reason: None,
                            },
                        );
                    },
                    ConnectOutcome::Failed(e) => e.clone(),
                }
            };
            match after_primary_failure(cause.as_str(), has_deepgram_key) {
                Ok(reason) => {
                    match deepgram_outcome {
                        ConnectOutcome::Connected => Ok(
                            AsrConnectionSummary {
                                provider: AsrProvider::Deepgram,
                                fallback_reason: Some(reason),
                            },
                        ),
                        ConnectOutcome::Failed(e) => Err(
                            ConnectError::ConnectFailed { message: e.clone() },
                        ),
                    }
                },
                Err(e) => Err(e),
            }
        },
    }
}

} // verus!
