use vstd::prelude::*;

use crate::agent_session::AgentSession;
use crate::errors::AgentError;
use crate::identity::Identity;

verus! {

/// Record of one monitored liquidity position: the registered bin range,
/// the last observed pool state, and fee snapshots as the agent reported
/// them. The monitor moves no value; it only tracks status. One monitor
/// per session; sessions are keyed by their owner.
#[derive(Clone, Copy, Debug, PartialEq, Eq, Structural)]
pub struct LpPositionMonitor {
    /// The owning session, by its owner identity. Immutable.
    pub session: Identity,
    /// The venue pool being monitored. Immutable after registration.
    pub lb_pair: Identity,
    /// The venue position account being tracked. Immutable after
    /// registration.
    pub position: Identity,
    /// Position's lower bin boundary, inclusive.
    pub min_bin_id: i32,
    /// Position's upper bin boundary, inclusive.
    pub max_bin_id: i32,
    /// Pool active bin observed at the last checkpoint.
    pub last_active_bin: i32,
    /// Whether the last observed active bin was inside the range.
    pub is_in_range: bool,
    /// Unclaimed fee amount for token X at the last checkpoint, as
    /// reported; the monitor does not verify it against the venue.
    pub fee_x_snapshot: u64,
    /// Unclaimed fee amount for token Y at the last checkpoint, as
    /// reported.
    pub fee_y_snapshot: u64,
    /// Unix timestamp of the last checkpoint.
    pub last_checked_at: i64,
}

impl LpPositionMonitor {
    /// Well-formedness: the registered range is ordered. Registration
    /// establishes it and no checkpoint touches the bounds.
    pub open spec fn wf(self) -> bool {
        self.min_bin_id <= self.max_bin_id
    }

    /// `active_bin` lies inside the registered range, both ends inclusive.
    pub open spec fn spec_in_range(self, active_bin: i32) -> bool {
        self.min_bin_id <= active_bin && active_bin <= self.max_bin_id
    }

    /// Returns true when `active_bin` is within the registered range.
    pub fn check_in_range(&self, active_bin: i32) -> (r: bool)
        ensures
            r == self.spec_in_range(active_bin),
    {
        active_bin >= self.min_bin_id && active_bin <= self.max_bin_id
    }
}

/// Outcome of registering a monitor: `InvalidBinRange` for an unordered
/// range, `SessionInactive` for a closed session, else a fresh record with
/// the optimistic in-range default, pending the first real checkpoint.
pub open spec fn register_outcome(
    session: AgentSession,
    lb_pair: Identity,
    position: Identity,
    min_bin_id: i32,
    max_bin_id: i32,
) -> Result<LpPositionMonitor, AgentError> {
    if min_bin_id > max_bin_id {
        Err(AgentError::InvalidBinRange)
    } else if !session.is_active {
        Err(AgentError::SessionInactive)
    } else {
        Ok(
            (LpPositionMonitor {
                session: session.owner,
                lb_pair,
                position,
                min_bin_id,
                max_bin_id,
                last_active_bin: 0,
                is_in_range: true,
                fee_x_snapshot: 0,
                fee_y_snapshot: 0,
                last_checked_at: 0,
            }),
        )
    }
}

/// Register a venue position for status monitoring against an active
/// session. Requires an ordered bin range; on failure no record is
/// created. The host authenticates the registering owner.
pub fn register_lp_monitor(
    session: &AgentSession,
    lb_pair: Identity,
    position: Identity,
    min_bin_id: i32,
    max_bin_id: i32,
) -> (r: Result<LpPositionMonitor, AgentError>)
    ensures
        r == register_outcome(*session, lb_pair, position, min_bin_id, max_bin_id),
        r matches Ok(m) ==> m.wf(),
{
    if min_bin_id > max_bin_id {
        return Err(AgentError::InvalidBinRange);
    }
    if !session.is_active {
        return Err(AgentError::SessionInactive);
    }
    Ok(
        LpPositionMonitor {
            session: session.owner,
            lb_pair,
            position,
            min_bin_id,
            max_bin_id,
            last_active_bin: 0,
            is_in_range: true,
            fee_x_snapshot: 0,
            fee_y_snapshot: 0,
            last_checked_at: 0,
        },
    )
}

/// What one monitor checkpoint reports back to the caller.
#[derive(Clone, Copy, Debug, PartialEq, Eq, Structural)]
pub struct LpStatusReport {
    /// Whether the observed active bin lies inside the registered range.
    pub is_in_range: bool,
    /// The alert condition: the previous checkpoint was in range and this
    /// one is not. The monitor only reports it; it takes no action.
    pub went_out_of_range: bool,
}

/// Outcome of a monitor checkpoint: the parent session's first three gates
/// re-evaluated (active, unexpired, signer), then all four observed fields
/// updated unconditionally and the range transition reported.
pub open spec fn update_status_outcome(
    m: LpPositionMonitor,
    session: AgentSession,
    session_key: Identity,
    now: i64,
    active_bin: i32,
    fee_x: u64,
    fee_y: u64,
) -> Result<(LpPositionMonitor, LpStatusReport), AgentError> {
    if !session.is_active {
        Err(AgentError::SessionInactive)
    } else if session.spec_is_expired(now) {
        Err(AgentError::SessionExpired)
    } else if session_key != session.session_key {
        Err(AgentError::UnauthorizedSessionKey)
    } else {
        let now_in_range = m.spec_in_range(active_bin);
        Ok(
            ((LpPositionMonitor {
                last_active_bin: active_bin,
                is_in_range: now_in_range,
                fee_x_snapshot: fee_x,
                fee_y_snapshot: fee_y,
                last_checked_at: now,
                ..m
            }), (LpStatusReport {
                is_in_range: now_in_range,
                went_out_of_range: m.is_in_range && !now_in_range,
            })),
        )
    }
}

/// Checkpoint the position's current status: the delegated signer passes
/// the active bin and unclaimed fees it observed at the venue. The monitor
/// must belong to the given session; the host pairs the two records.
pub fn update_lp_status(
    monitor: &mut LpPositionMonitor,
    session: &AgentSession,
    session_key: Identity,
    now: i64,
    active_bin: i32,
    fee_x: u64,
    fee_y: u64,
) -> (r: Result<LpStatusReport, AgentError>)
    requires
        old(monitor).session == session.owner,
    ensures
        match r {
            Ok(rep) => update_status_outcome(
                *old(monitor),
                *session,
                session_key,
                now,
                active_bin,
                fee_x,
                fee_y,
            ) == Ok::<(LpPositionMonitor, LpStatusReport), AgentError>((*final(monitor), rep)),
            Err(e) => *final(monitor) == *old(monitor) && update_status_outcome(
                *old(monitor),
                *session,
                session_key,
                now,
                active_bin,
                fee_x,
                fee_y,
            ) == Err::<(LpPositionMonitor, LpStatusReport), AgentError>(e),
        },
{
    if !session.is_active {
        return Err(AgentError::SessionInactive);
    }
    if session.is_expired(now) {
        return Err(AgentError::SessionExpired);
    }
    if session_key != session.session_key {
        return Err(AgentError::UnauthorizedSessionKey);
    }
    let was_in_range: bool = monitor.is_in_range;
    let now_in_range: bool = monitor.check_in_range(active_bin);
    monitor.last_active_bin = active_bin;
    monitor.is_in_range = now_in_range;
    monitor.fee_x_snapshot = fee_x;
    monitor.fee_y_snapshot = fee_y;
    monitor.last_checked_at = now;
    Ok(LpStatusReport { is_in_range: now_in_range, went_out_of_range: was_in_range && !now_in_range })
}

} // verus!
