use vstd::prelude::*;

use crate::agent_session::ACTION_LP_REBALANCE;
use crate::agent_session::AgentSession;
use crate::errors::AgentError;
use crate::exposure::checked_spend;
use crate::exposure::combined_delta;
use crate::exposure::combined_delta_outcome;
use crate::exposure::spend_outcome;
use crate::identity::Identity;

verus! {

/// Outcome of creating a session record: a fresh, active record with zero
/// spend and zero actions, expiring `duration_secs` after `now`, or
/// `Overflow` when the expiry timestamp does not fit the integer width.
pub open spec fn initialize_outcome(
    owner: Identity,
    session_key: Identity,
    duration_secs: i64,
    max_lamports: u64,
    strategy_mask: u8,
    now: i64,
) -> Result<AgentSession, AgentError> {
    if now + duration_secs > i64::MAX || now + duration_secs < i64::MIN {
        Err(AgentError::Overflow)
    } else {
        Ok(
            (AgentSession {
                owner,
                session_key,
                expires_at: (now + duration_secs) as i64,
                max_lamports,
                spent_lamports: 0,
                is_active: true,
                strategy_mask,
                total_actions: 0,
                last_action_at: now,
            }),
        )
    }
}

/// Create a session record, registering the delegated session key with its
/// scope: duration, maximum exposure, and enabled strategies. The caller
/// supplies the clock reading `now`; the host authenticates the owner.
pub fn initialize_session(
    owner: Identity,
    session_key: Identity,
    duration_secs: i64,
    max_lamports: u64,
    strategy_mask: u8,
    now: i64,
) -> (r: Result<AgentSession, AgentError>)
    ensures
        r == initialize_outcome(owner, session_key, duration_secs, max_lamports, strategy_mask, now),
        r matches Ok(s) ==> s.wf(),
{
    match now.checked_add(duration_secs) {
        None => Err(AgentError::Overflow),
        Some(expires_at) => Ok(
            AgentSession {
                owner,
                session_key,
                expires_at,
                max_lamports,
                spent_lamports: 0,
                is_active: true,
                strategy_mask,
                total_actions: 0,
                last_action_at: now,
            },
        ),
    }
}

/// The engine's full decision for one action request: the first failing
/// gate's error, in gate order — inactive, expired, wrong signer, strategy
/// off, spend overflow, cap exceeded, counter overflow — or the record
/// after all three mutations (spend, counter, last-action time) as a unit.
pub open spec fn authorize_outcome(
    s: AgentSession,
    signer: Identity,
    action_type: u8,
    amount_lamports: u64,
    now: i64,
) -> Result<AgentSession, AgentError> {
    match s.spec_gate_error(signer, action_type, now) {
        Some(e) => Err(e),
        None => match spend_outcome(s.spent_lamports, s.max_lamports, amount_lamports) {
            Err(e) => Err(e),
            Ok(new_spent) => match (AgentSession {
                spent_lamports: new_spent,
                ..s
            }).spec_bump_outcome() {
                Err(e) => Err(e),
                Ok(s2) => Ok((AgentSession { last_action_at: now, ..s2 })),
            },
        },
    }
}

/// Execute one scoped action: validate every gate, then apply the spend,
/// the counter, and the last-action time as one atomic unit — on any
/// failure nothing changes. Decides exactly as `authorize_outcome` says.
pub fn execute_action(
    session: &mut AgentSession,
    signer: Identity,
    action_type: u8,
    amount_lamports: u64,
    now: i64,
) -> (r: Result<(), AgentError>)
    ensures
        match r {
            Ok(()) => authorize_outcome(*old(session), signer, action_type, amount_lamports, now)
                == Ok::<AgentSession, AgentError>(*final(session)),
            Err(e) => *final(session) == *old(session) && authorize_outcome(
                *old(session),
                signer,
                action_type,
                amount_lamports,
                now,
            ) == Err::<AgentSession, AgentError>(e),
        },
{
    if !session.is_active {
        return Err(AgentError::SessionInactive);
    }
    if session.is_expired(now) {
        return Err(AgentError::SessionExpired);
    }
    if signer != session.session_key {
        return Err(AgentError::UnauthorizedSessionKey);
    }
    if !session.has_strategy(action_type) {
        return Err(AgentError::StrategyNotEnabled);
    }
    let new_spent: u64 = match checked_spend(
        session.spent_lamports,
        session.max_lamports,
        amount_lamports,
    ) {
        Err(e) => {
            return Err(e);
        },
        Ok(v) => v,
    };
    let new_total: u64 = match session.total_actions.checked_add(1) {
        None => {
            return Err(AgentError::Overflow);
        },
        Some(v) => v,
    };
    session.spent_lamports = new_spent;
    session.total_actions = new_total;
    session.last_action_at = now;
    Ok(())
}

/// Decision for a venue action that spends `delta`: exactly the engine's
/// decision with the LP action kind.
pub open spec fn lp_spend_outcome(
    s: AgentSession,
    signer: Identity,
    now: i64,
    delta: u64,
) -> Result<AgentSession, AgentError> {
    authorize_outcome(s, signer, ACTION_LP_REBALANCE, delta, now)
}

/// Accounting half of a venue swap. The swap itself is the host's: it
/// forwards the order to the venue only between `validate_lp_session` and
/// this call, and settles here on venue success, with `amount_in` counted
/// as the action's outward exposure.
pub fn execute_dlmm_swap(
    session: &mut AgentSession,
    session_key: Identity,
    now: i64,
    amount_in: u64,
) -> (r: Result<(), AgentError>)
    ensures
        match r {
            Ok(()) => lp_spend_outcome(*old(session), session_key, now, amount_in)
                == Ok::<AgentSession, AgentError>(*final(session)),
            Err(e) => *final(session) == *old(session) && lp_spend_outcome(
                *old(session),
                session_key,
                now,
                amount_in,
            ) == Err::<AgentSession, AgentError>(e),
        },
{
    execute_action(session, session_key, ACTION_LP_REBALANCE, amount_in, now)
}

/// Decision for a two-sided liquidity deposit: the composite delta
/// `amount_x + amount_y` is computed with the same overflow-checked rule
/// before it is compared to the cap, so overflow in the delta itself also
/// fails `Overflow` prior to the cap check.
pub open spec fn add_liquidity_outcome(
    s: AgentSession,
    signer: Identity,
    now: i64,
    amount_x: u64,
    amount_y: u64,
) -> Result<AgentSession, AgentError> {
    match s.spec_gate_error(signer, ACTION_LP_REBALANCE, now) {
        Some(e) => Err(e),
        None => match combined_delta_outcome(amount_x, amount_y) {
            Err(e) => Err(e),
            Ok(total_in) => lp_spend_outcome(s, signer, now, total_in),
        },
    }
}

/// Accounting half of a two-sided liquidity deposit: gates, composite
/// delta, cap, then settlement as one unit. The deposit itself is the
/// host's, forwarded to the venue only after validation.
pub fn execute_dlmm_add_liquidity(
    session: &mut AgentSession,
    session_key: Identity,
    now: i64,
    amount_x: u64,
    amount_y: u64,
) -> (r: Result<(), AgentError>)
    ensures
        match r {
            Ok(()) => add_liquidity_outcome(*old(session), session_key, now, amount_x, amount_y)
                == Ok::<AgentSession, AgentError>(*final(session)),
            Err(e) => *final(session) == *old(session) && add_liquidity_outcome(
                *old(session),
                session_key,
                now,
                amount_x,
                amount_y,
            ) == Err::<AgentSession, AgentError>(e),
        },
{
    match session.validate_lp_session(session_key, now) {
        Err(e) => Err(e),
        Ok(()) => {
            let total_in: u64 = match combined_delta(amount_x, amount_y) {
                Err(e) => {
                    return Err(e);
                },
                Ok(v) => v,
            };
            execute_action(session, session_key, ACTION_LP_REBALANCE, total_in, now)
        },
    }
}

/// Decision for closing a venue position: the gates, then the counter and
/// last-action time. `spent_lamports` is deliberately not touched — the
/// withdrawn value returns to the owner, and spend is a ratchet, never a
/// balance.
pub open spec fn lp_close_outcome(s: AgentSession, signer: Identity, now: i64) -> Result<
    AgentSession,
    AgentError,
> {
    match s.spec_gate_error(signer, ACTION_LP_REBALANCE, now) {
        Some(e) => Err(e),
        None => match s.spec_bump_outcome() {
            Err(e) => Err(e),
            Ok(s2) => Ok((AgentSession { last_action_at: now, ..s2 })),
        },
    }
}

/// Accounting half of closing a position: validate, then count the action
/// without any spend. The venue's withdraw-and-close runs on the host
/// between validation and settlement.
pub fn execute_dlmm_close_position(
    session: &mut AgentSession,
    session_key: Identity,
    now: i64,
) -> (r: Result<(), AgentError>)
    ensures
        match r {
            Ok(()) => lp_close_outcome(*old(session), session_key, now)
                == Ok::<AgentSession, AgentError>(*final(session)),
            Err(e) => *final(session) == *old(session) && lp_close_outcome(
                *old(session),
                session_key,
                now,
            ) == Err::<AgentSession, AgentError>(e),
        },
{
    match session.validate_lp_session(session_key, now) {
        Err(e) => Err(e),
        Ok(()) => {
            let new_total: u64 = match session.total_actions.checked_add(1) {
                None => {
                    return Err(AgentError::Overflow);
                },
                Some(v) => v,
            };
            session.total_actions = new_total;
            session.last_action_at = now;
            Ok(())
        },
    }
}

/// One action request as the engine sees it: who asks, for which kind,
/// moving how much, at what time.
#[derive(Clone, Copy, Debug, PartialEq, Eq, Structural)]
pub struct ActionRequest {
    pub signer: Identity,
    pub action_type: u8,
    pub amount_lamports: u64,
    pub now: i64,
}

/// The record after one request: the engine's result on success, the
/// unchanged record on any failure.
pub open spec fn step_session(s: AgentSession, req: ActionRequest) -> AgentSession {
    match authorize_outcome(s, req.signer, req.action_type, req.amount_lamports, req.now) {
        Ok(s2) => s2,
        Err(_) => s,
    }
}

/// The record after a whole sequence of requests, applied in order.
pub open spec fn apply_actions(s: AgentSession, reqs: Seq<ActionRequest>) -> AgentSession
    decreases reqs.len(),
{
    if reqs.len() == 0 {
        s
    } else {
        apply_actions(step_session(s, reqs[0]), reqs.subrange(1, reqs.len() as int))
    }
}

/// How many requests of the sequence the engine authorizes, applied in
/// order against the evolving record.
pub open spec fn count_successes(s: AgentSession, reqs: Seq<ActionRequest>) -> nat
    decreases reqs.len(),
{
    if reqs.len() == 0 {
        0
    } else {
        (if authorize_outcome(
            s,
            reqs[0].signer,
            reqs[0].action_type,
            reqs[0].amount_lamports,
            reqs[0].now,
        ) is Ok {
            1nat
        } else {
            0nat
        }) + count_successes(step_session(s, reqs[0]), reqs.subrange(1, reqs.len() as int))
    }
}

} // verus!
