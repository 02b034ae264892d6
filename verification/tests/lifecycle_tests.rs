use defi_agent::agent_session::{AgentSession, ACTION_LP_REBALANCE, STRATEGY_ALL};
use defi_agent::engine::{execute_action, initialize_session};
use defi_agent::errors::AgentError;
use defi_agent::identity::Identity;
use defi_agent::lifecycle::{
    commit_session, delegate_session, undelegate_session, Custody, SessionLifecycle,
};

fn ident(k: u64) -> Identity {
    Identity { w0: k, w1: 0, w2: 0, w3: 0 }
}

fn fresh_session() -> AgentSession {
    initialize_session(ident(1), ident(2), 1_000, 10_000, STRATEGY_ALL, 0).unwrap()
}

#[test]
fn new_record_is_resident_with_matching_copies() {
    let s = fresh_session();
    let l = SessionLifecycle::new(s);
    assert_eq!(l.custody, Custody::Resident);
    assert_eq!(l.record, s);
    assert_eq!(l.base_copy, s);
}

#[test]
fn delegate_moves_custody_and_changes_no_field() {
    let s = fresh_session();
    let mut l = SessionLifecycle::new(s);
    assert_eq!(delegate_session(&mut l), Ok(()));
    assert_eq!(l.custody, Custody::Delegated);
    assert_eq!(l.record, s);
    assert_eq!(l.base_copy, s);
}

#[test]
fn delegate_twice_is_a_protocol_violation() {
    let mut l = SessionLifecycle::new(fresh_session());
    assert_eq!(delegate_session(&mut l), Ok(()));
    let before = l;
    assert_eq!(delegate_session(&mut l), Err(AgentError::ProtocolStateViolation));
    assert_eq!(l, before);
}

#[test]
fn commit_while_resident_is_a_protocol_violation() {
    let mut l = SessionLifecycle::new(fresh_session());
    assert_eq!(commit_session(&mut l), Err(AgentError::ProtocolStateViolation));
    assert_eq!(l.custody, Custody::Resident);
}

#[test]
fn undelegate_while_resident_is_a_protocol_violation() {
    let mut l = SessionLifecycle::new(fresh_session());
    assert_eq!(undelegate_session(&mut l), Err(AgentError::ProtocolStateViolation));
}

#[test]
fn commit_copies_live_state_to_base() {
    let mut l = SessionLifecycle::new(fresh_session());
    assert_eq!(delegate_session(&mut l), Ok(()));
    assert_eq!(execute_action(&mut l.record, ident(2), ACTION_LP_REBALANCE, 750, 5), Ok(()));
    assert_ne!(l.base_copy, l.record);
    assert_eq!(commit_session(&mut l), Ok(()));
    assert_eq!(l.base_copy, l.record);
    assert_eq!(l.base_copy.spent_lamports, 750);
    assert_eq!(l.custody, Custody::Delegated);
}

#[test]
fn commit_twice_in_succession_is_idempotent() {
    let mut l = SessionLifecycle::new(fresh_session());
    assert_eq!(delegate_session(&mut l), Ok(()));
    assert_eq!(execute_action(&mut l.record, ident(2), ACTION_LP_REBALANCE, 300, 4), Ok(()));
    assert_eq!(commit_session(&mut l), Ok(()));
    let after_first = l;
    assert_eq!(commit_session(&mut l), Ok(()));
    assert_eq!(l, after_first);
}

#[test]
fn undelegate_deactivates_commits_and_returns_custody() {
    let mut l = SessionLifecycle::new(fresh_session());
    assert_eq!(delegate_session(&mut l), Ok(()));
    assert_eq!(execute_action(&mut l.record, ident(2), ACTION_LP_REBALANCE, 10, 3), Ok(()));
    assert_eq!(undelegate_session(&mut l), Ok(()));
    assert_eq!(l.custody, Custody::Resident);
    assert!(!l.record.is_active);
    assert_eq!(l.base_copy, l.record);
    // The terminal snapshot keeps the accounting, only liveness flips.
    assert_eq!(l.base_copy.spent_lamports, 10);
    assert_eq!(l.base_copy.total_actions, 1);
}

#[test]
fn undelegate_is_one_way_for_authorization() {
    let mut l = SessionLifecycle::new(fresh_session());
    assert_eq!(delegate_session(&mut l), Ok(()));
    assert_eq!(undelegate_session(&mut l), Ok(()));
    let r = execute_action(&mut l.record, ident(2), ACTION_LP_REBALANCE, 1, 4);
    assert_eq!(r, Err(AgentError::SessionInactive));
    // Even a fresh delegation grants nothing: the record stays closed.
    assert_eq!(delegate_session(&mut l), Ok(()));
    let r = execute_action(&mut l.record, ident(2), ACTION_LP_REBALANCE, 1, 5);
    assert_eq!(r, Err(AgentError::SessionInactive));
    assert_eq!(l.record.total_actions, 0);
}

#[test]
fn undelegate_twice_is_a_protocol_violation() {
    let mut l = SessionLifecycle::new(fresh_session());
    assert_eq!(delegate_session(&mut l), Ok(()));
    assert_eq!(undelegate_session(&mut l), Ok(()));
    assert_eq!(undelegate_session(&mut l), Err(AgentError::ProtocolStateViolation));
}
