use vstd::prelude::*;

verus! {

/// Why a request was refused. Every failure is terminal for the current
/// request and leaves all records unchanged: a gate either passes exactly
/// or aborts the whole request with no partial mutation.
#[derive(Clone, Copy, Debug, PartialEq, Eq, Structural)]
pub enum AgentError {
    /// The session has expired: the current time is at or past `expires_at`.
    SessionExpired,
    /// The session has been deactivated; no further mutation is permitted.
    SessionInactive,
    /// The requesting principal is not the registered session key.
    UnauthorizedSessionKey,
    /// The action would push cumulative spend past the session's exposure cap.
    ExposureLimitExceeded,
    /// The capability bit for the requested action kind is not set.
    StrategyNotEnabled,
    /// Checked arithmetic on spend, expiry, or counters would overflow.
    Overflow,
    /// A monitor registration gave `min_bin_id > max_bin_id`.
    InvalidBinRange,
    /// A delegate, commit, or undelegate was issued from the wrong custody
    /// state. A protocol violation, not a retryable authorization failure.
    ProtocolStateViolation,
}

} // verus!
