use defi_agent::agent_session::{AgentSession, STRATEGY_ALL, STRATEGY_YIELD};
use defi_agent::engine::{
    execute_dlmm_add_liquidity, execute_dlmm_close_position, execute_dlmm_swap,
    initialize_session,
};
use defi_agent::errors::AgentError;
use defi_agent::exposure::{checked_spend, combined_delta};
use defi_agent::identity::Identity;

fn ident(k: u64) -> Identity {
    Identity { w0: k, w1: 0, w2: 0, w3: 0 }
}

fn fresh_session(max_lamports: u64) -> AgentSession {
    initialize_session(ident(1), ident(2), 1_000, max_lamports, STRATEGY_ALL, 0).unwrap()
}

#[test]
fn checked_spend_orders_overflow_before_cap() {
    assert_eq!(checked_spend(0, 100, 40), Ok(40));
    assert_eq!(checked_spend(60, 100, 40), Ok(100));
    assert_eq!(checked_spend(61, 100, 40), Err(AgentError::ExposureLimitExceeded));
    // A wrapped sum must fail Overflow, not sneak under the cap.
    assert_eq!(checked_spend(u64::MAX, 100, 1), Err(AgentError::Overflow));
}

#[test]
fn combined_delta_checks_its_own_overflow() {
    assert_eq!(combined_delta(3, 4), Ok(7));
    assert_eq!(combined_delta(u64::MAX, 1), Err(AgentError::Overflow));
    assert_eq!(combined_delta(u64::MAX, 0), Ok(u64::MAX));
}

#[test]
fn validate_lp_session_gate_order() {
    let s = fresh_session(1_000);
    assert_eq!(s.validate_lp_session(ident(2), 5), Ok(()));
    assert_eq!(s.validate_lp_session(ident(2), 1_000), Err(AgentError::SessionExpired));
    assert_eq!(s.validate_lp_session(ident(9), 5), Err(AgentError::UnauthorizedSessionKey));
    let mut closed = s;
    closed.is_active = false;
    assert_eq!(closed.validate_lp_session(ident(2), 5), Err(AgentError::SessionInactive));
    let no_lp = initialize_session(ident(1), ident(2), 1_000, 1_000, STRATEGY_YIELD, 0).unwrap();
    assert_eq!(no_lp.validate_lp_session(ident(2), 5), Err(AgentError::StrategyNotEnabled));
}

#[test]
fn swap_counts_amount_in_as_exposure() {
    let mut s = fresh_session(1_000);
    assert_eq!(execute_dlmm_swap(&mut s, ident(2), 5, 400), Ok(()));
    assert_eq!(s.spent_lamports, 400);
    assert_eq!(s.total_actions, 1);
    assert_eq!(s.last_action_at, 5);
    assert_eq!(execute_dlmm_swap(&mut s, ident(2), 6, 601), Err(AgentError::ExposureLimitExceeded));
    assert_eq!(s.spent_lamports, 400);
}

#[test]
fn swap_requires_lp_strategy() {
    let mut s = initialize_session(ident(1), ident(2), 1_000, 1_000, STRATEGY_YIELD, 0).unwrap();
    assert_eq!(execute_dlmm_swap(&mut s, ident(2), 5, 10), Err(AgentError::StrategyNotEnabled));
}

#[test]
fn add_liquidity_spends_both_sides_combined() {
    let mut s = fresh_session(1_000);
    assert_eq!(execute_dlmm_add_liquidity(&mut s, ident(2), 5, 300, 200), Ok(()));
    assert_eq!(s.spent_lamports, 500);
    assert_eq!(s.total_actions, 1);
    assert_eq!(
        execute_dlmm_add_liquidity(&mut s, ident(2), 6, 400, 200),
        Err(AgentError::ExposureLimitExceeded)
    );
    assert_eq!(s.spent_lamports, 500);
}

#[test]
fn add_liquidity_delta_overflow_fails_before_cap_check() {
    let mut s = fresh_session(u64::MAX);
    let r = execute_dlmm_add_liquidity(&mut s, ident(2), 5, u64::MAX, 1);
    assert_eq!(r, Err(AgentError::Overflow));
    assert_eq!(s.spent_lamports, 0);
    assert_eq!(s.total_actions, 0);
}

#[test]
fn close_position_spends_nothing_but_counts() {
    let mut s = fresh_session(1_000);
    assert_eq!(execute_dlmm_swap(&mut s, ident(2), 5, 999), Ok(()));
    assert_eq!(execute_dlmm_close_position(&mut s, ident(2), 8), Ok(()));
    // Spend is a ratchet: returned value never lowers it.
    assert_eq!(s.spent_lamports, 999);
    assert_eq!(s.total_actions, 2);
    assert_eq!(s.last_action_at, 8);
}

#[test]
fn close_position_still_passes_the_gates() {
    let mut s = fresh_session(1_000);
    assert_eq!(execute_dlmm_close_position(&mut s, ident(9), 8), Err(AgentError::UnauthorizedSessionKey));
    assert_eq!(execute_dlmm_close_position(&mut s, ident(2), 1_000), Err(AgentError::SessionExpired));
    s.is_active = false;
    assert_eq!(execute_dlmm_close_position(&mut s, ident(2), 8), Err(AgentError::SessionInactive));
}

#[test]
fn close_position_counter_overflow_changes_nothing() {
    let mut s = fresh_session(1_000);
    s.total_actions = u64::MAX;
    assert_eq!(execute_dlmm_close_position(&mut s, ident(2), 8), Err(AgentError::Overflow));
    assert_eq!(s.total_actions, u64::MAX);
    assert_eq!(s.last_action_at, 0);
}
