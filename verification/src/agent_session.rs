use vstd::prelude::*;

use crate::errors::AgentError;
use crate::identity::Identity;

verus! {

/// Strategy bitmask flags — combine with bitwise OR to enable multiple.
/// Bit 0: concentrated-liquidity rebalancing.
pub const STRATEGY_LP: u8 = 1;

/// Bit 1: lending yield switching.
pub const STRATEGY_YIELD: u8 = 2;

/// Bit 2: leveraged-position protection.
pub const STRATEGY_LIQUIDATION: u8 = 4;

/// All three strategy bits set.
pub const STRATEGY_ALL: u8 = 7;

/// Action kind indices (used as bit index into the strategy bitmask).
pub const ACTION_LP_REBALANCE: u8 = 0;

pub const ACTION_YIELD_SWITCH: u8 = 1;

pub const ACTION_LIQUIDATION_PROTECT: u8 = 2;

/// Persistent state of one delegated session: who owns it, which key may
/// act for it, until when, under which exposure cap, and what it has done
/// so far. Flat and fixed-width, so storage can be sized exactly.
#[derive(Clone, Copy, Debug, PartialEq, Eq, Structural)]
pub struct AgentSession {
    /// The wallet that created the session. Immutable after creation.
    pub owner: Identity,
    /// The only principal whose signature authorizes actions.
    pub session_key: Identity,
    /// Unix timestamp at and after which every action is rejected.
    pub expires_at: i64,
    /// Maximum cumulative value the session may ever move outward.
    pub max_lamports: u64,
    /// Running total of value authorized outward. A ratchet: it never
    /// decreases, not even for actions that return value to the owner.
    pub spent_lamports: u64,
    /// False once the session is closed; no further mutation is permitted.
    pub is_active: bool,
    /// Capability bitset: bit `i` enables action kind `i`.
    pub strategy_mask: u8,
    /// Count of successful actions. Overflow fails closed, never wraps.
    pub total_actions: u64,
    /// Unix timestamp of the last successful mutation.
    pub last_action_at: i64,
}

impl AgentSession {
    /// Well-formedness: cumulative spend never exceeds the exposure cap.
    /// Creation establishes it; every engine step preserves it.
    pub open spec fn wf(self) -> bool {
        self.spent_lamports <= self.max_lamports
    }

    /// Expiry is inclusive of the boundary: at `now == expires_at` the
    /// session is already expired.
    pub open spec fn spec_is_expired(self, now: i64) -> bool {
        now >= self.expires_at
    }

    pub fn is_expired(&self, now: i64) -> (r: bool)
        ensures
            r == self.spec_is_expired(now),
    {
        now >= self.expires_at
    }

    /// Bit `action_type` of the capability mask. Kinds at or beyond the
    /// mask width have no bit and are never enabled.
    pub open spec fn spec_has_strategy(self, action_type: u8) -> bool {
        action_type < 8 && self.strategy_mask & (1u8 << action_type) != 0
    }

    /// Returns true if the given action kind's strategy bit is enabled.
    pub fn has_strategy(&self, action_type: u8) -> (r: bool)
        ensures
            r == self.spec_has_strategy(action_type),
    {
        action_type < 8 && self.strategy_mask & (1u8 << action_type) != 0
    }

    /// The authorization gate sequence, evaluated in order, each a hard
    /// gate: active, unexpired, signer matches, capability bit set.
    /// `None` means every gate passes.
    pub open spec fn spec_gate_error(
        self,
        signer: Identity,
        action_type: u8,
        now: i64,
    ) -> Option<AgentError> {
        if !self.is_active {
            Some(AgentError::SessionInactive)
        } else if self.spec_is_expired(now) {
            Some(AgentError::SessionExpired)
        } else if signer != self.session_key {
            Some(AgentError::UnauthorizedSessionKey)
        } else if !self.spec_has_strategy(action_type) {
            Some(AgentError::StrategyNotEnabled)
        } else {
            None
        }
    }

    /// Validate session state for any liquidity-venue instruction: active,
    /// not expired, correct session key, LP strategy enabled. Pure; decides
    /// exactly as `spec_gate_error` with the LP action kind says.
    pub fn validate_lp_session(&self, session_key: Identity, timestamp: i64) -> (r: Result<
        (),
        AgentError,
    >)
        ensures
            match r {
                Ok(()) => self.spec_gate_error(session_key, ACTION_LP_REBALANCE, timestamp)
                    is None,
                Err(e) => self.spec_gate_error(session_key, ACTION_LP_REBALANCE, timestamp)
                    == Some(e),
            },
    {
        if !self.is_active {
            return Err(AgentError::SessionInactive);
        }
        if self.is_expired(timestamp) {
            return Err(AgentError::SessionExpired);
        }
        if session_key != self.session_key {
            return Err(AgentError::UnauthorizedSessionKey);
        }
        if !self.has_strategy(ACTION_LP_REBALANCE) {
            return Err(AgentError::StrategyNotEnabled);
        }
        Ok(())
    }

    /// Outcome of incrementing the activity counter: the same record with
    /// `total_actions` one higher, or `Overflow` when the counter is full.
    pub open spec fn spec_bump_outcome(self) -> Result<AgentSession, AgentError> {
        if self.total_actions + 1 > u64::MAX {
            Err(AgentError::Overflow)
        } else {
            Ok(AgentSession { total_actions: (self.total_actions + 1) as u64, ..self })
        }
    }

    /// Increment `total_actions` with overflow protection: saturation
    /// fails closed rather than wrapping, and a failure changes nothing.
    pub fn bump_actions(&mut self) -> (r: Result<(), AgentError>)
        ensures
            match r {
                Ok(()) => old(self).spec_bump_outcome() == Ok::<AgentSession, AgentError>(
                    *final(self),
                ),
                Err(e) => *final(self) == *old(self) && old(self).spec_bump_outcome()
                    == Err::<AgentSession, AgentError>(e),
            },
    {
        match self.total_actions.checked_add(1) {
            None => Err(AgentError::Overflow),
            Some(new_total) => {
                self.total_actions = new_total;
                Ok(())
            },
        }
    }
}

} // verus!
