use vstd::prelude::*;

use crate::agent_session::AgentSession;
use crate::engine::ActionRequest;
use crate::engine::add_liquidity_outcome;
use crate::engine::apply_actions;
use crate::engine::authorize_outcome;
use crate::engine::count_successes;
use crate::engine::lp_close_outcome;
use crate::engine::step_session;
use crate::errors::AgentError;
use crate::identity::Identity;
use crate::lifecycle::SessionLifecycle;
use crate::lifecycle::commit_outcome;
use crate::lifecycle::undelegate_outcome;

verus! {

/// One engine step keeps the exposure invariant: when the engine authorizes
/// an action against a well-formed record, the new record is well-formed —
/// cumulative spend stays at or under the cap — the cap itself, the owner,
/// the signer, the expiry, the capability mask and liveness are untouched,
/// and spend only ratchets upward, by exactly the authorized amount.
pub proof fn lemma_authorize_preserves_exposure_cap(
    s: AgentSession,
    signer: Identity,
    action_type: u8,
    amount_lamports: u64,
    now: i64,
)
    requires
        s.wf(),
    ensures
        authorize_outcome(s, signer, action_type, amount_lamports, now) matches Ok(s2) ==> s2.wf()
            && s2.spent_lamports == s.spent_lamports + amount_lamports && s2.max_lamports
            == s.max_lamports && s2.owner == s.owner && s2.session_key == s.session_key
            && s2.expires_at == s.expires_at && s2.strategy_mask == s.strategy_mask && s2.is_active
            == s.is_active,
{
}

/// The composite deposit and the close-position decisions keep the exposure
/// invariant too: a deposit spends exactly the overflow-checked sum of its
/// two sides, and a close spends nothing at all — spend is a ratchet, not a
/// balance, so returned value never lowers it.
pub proof fn lemma_venue_actions_preserve_exposure_cap(
    s: AgentSession,
    signer: Identity,
    now: i64,
    amount_x: u64,
    amount_y: u64,
)
    requires
        s.wf(),
    ensures
        add_liquidity_outcome(s, signer, now, amount_x, amount_y) matches Ok(s2) ==> s2.wf()
            && s2.spent_lamports == s.spent_lamports + amount_x + amount_y && s2.total_actions
            == s.total_actions + 1,
        lp_close_outcome(s, signer, now) matches Ok(s3) ==> s3.wf() && s3.spent_lamports
            == s.spent_lamports && s3.total_actions == s.total_actions + 1,
{
}

/// The exposure invariant holds under any sequence of action requests:
/// starting from a well-formed record, the record after the whole sequence
/// is still well-formed.
pub proof fn lemma_apply_actions_preserves_wf(s: AgentSession, reqs: Seq<ActionRequest>)
    requires
        s.wf(),
    ensures
        apply_actions(s, reqs).wf(),
    decreases reqs.len(),
{
    if reqs.len() > 0 {
        lemma_authorize_preserves_exposure_cap(
            s,
            reqs[0].signer,
            reqs[0].action_type,
            reqs[0].amount_lamports,
            reqs[0].now,
        );
        lemma_apply_actions_preserves_wf(
            step_session(s, reqs[0]),
            reqs.subrange(1, reqs.len() as int),
        );
    }
}

/// Cumulative spend never exceeds the exposure cap at any observable point:
/// after every prefix of an action-request sequence applied to a well-formed
/// record, the record is still well-formed — the bound is never violated,
/// not even transiently, since each request mutates atomically.
pub proof fn lemma_exposure_cap_every_prefix(s: AgentSession, reqs: Seq<ActionRequest>)
    requires
        s.wf(),
    ensures
        forall|i: int|
            0 <= i <= reqs.len() ==> #[trigger] apply_actions(s, reqs.subrange(0, i)).wf(),
{
    assert forall|i: int|
        0 <= i <= reqs.len() implies #[trigger] apply_actions(s, reqs.subrange(0, i)).wf() by {
        lemma_apply_actions_preserves_wf(s, reqs.subrange(0, i));
    }
}

/// The activity counter counts successful authorizations exactly: after any
/// sequence of requests, `total_actions` has grown by precisely the number
/// of requests the engine authorized — failed requests never increment it.
pub proof fn lemma_total_actions_counts_successes(s: AgentSession, reqs: Seq<ActionRequest>)
    ensures
        apply_actions(s, reqs).total_actions == s.total_actions + count_successes(s, reqs),
    decreases reqs.len(),
{
    if reqs.len() > 0 {
        lemma_total_actions_counts_successes(
            step_session(s, reqs[0]),
            reqs.subrange(1, reqs.len() as int),
        );
    }
}

/// Checkpointing is idempotent: committing again immediately, with no
/// intervening action, reproduces the very same two-layer state — the base
/// layer sees no difference after the second commit.
pub proof fn lemma_commit_is_idempotent(l: SessionLifecycle, l1: SessionLifecycle)
    requires
        commit_outcome(l) == Ok::<SessionLifecycle, AgentError>(l1),
    ensures
        commit_outcome(l1) == Ok::<SessionLifecycle, AgentError>(l1),
{
}

/// A deactivated record authorizes nothing and never changes: every request
/// fails at the first gate, so the record is a fixed point of the engine.
pub proof fn lemma_inactive_session_is_fixed(s: AgentSession, reqs: Seq<ActionRequest>)
    requires
        !s.is_active,
    ensures
        apply_actions(s, reqs) == s,
        count_successes(s, reqs) == 0,
    decreases reqs.len(),
{
    if reqs.len() > 0 {
        lemma_inactive_session_is_fixed(s, reqs.subrange(1, reqs.len() as int));
    }
}

/// Undelegation is one-way: after it succeeds, the returned record is
/// deactivated, any subsequent authorization against it fails with
/// `SessionInactive`, and no sequence of requests ever changes it again —
/// a new session must be created to resume agent activity.
pub proof fn lemma_undelegate_is_terminal(
    l: SessionLifecycle,
    l2: SessionLifecycle,
    reqs: Seq<ActionRequest>,
)
    requires
        undelegate_outcome(l) == Ok::<SessionLifecycle, AgentError>(l2),
    ensures
        !l2.record.is_active,
        apply_actions(l2.record, reqs) == l2.record,
        count_successes(l2.record, reqs) == 0,
        forall|i: int|
            0 <= i < reqs.len() ==> #[trigger] authorize_outcome(
                l2.record,
                reqs[i].signer,
                reqs[i].action_type,
                reqs[i].amount_lamports,
                reqs[i].now,
            ) == Err::<AgentSession, AgentError>(AgentError::SessionInactive),
{
    lemma_inactive_session_is_fixed(l2.record, reqs);
}

} // verus!
