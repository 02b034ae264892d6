use vstd::prelude::*;

use crate::agent_session::AgentSession;
use crate::errors::AgentError;

verus! {

/// Where a session record's mutation rights currently live.
#[derive(Clone, Copy, Debug, PartialEq, Eq, Structural)]
pub enum Custody {
    /// The base layer holds the authoritative record and the right to
    /// mutate it.
    Resident,
    /// The fast layer holds mutation rights; the base layer keeps the last
    /// committed copy.
    Delegated,
}

/// One session record as the two execution layers see it: the custody
/// state, the live record (mutated by the engine wherever custody lives),
/// and the base layer's authoritative copy, refreshed only by commit and
/// undelegate.
#[derive(Clone, Copy, Debug, PartialEq, Eq, Structural)]
pub struct SessionLifecycle {
    pub custody: Custody,
    /// The live record.
    pub record: AgentSession,
    /// The base layer's last committed copy of the record.
    pub base_copy: AgentSession,
}

impl SessionLifecycle {
    /// Places a freshly created record on the base layer, where it is both
    /// the live record and the authoritative copy.
    pub fn new(record: AgentSession) -> (r: SessionLifecycle)
        ensures
            r == (SessionLifecycle { custody: Custody::Resident, record, base_copy: record }),
    {
        SessionLifecycle { custody: Custody::Resident, record, base_copy: record }
    }
}

/// Outcome of handing mutation rights to the fast layer: custody moves,
/// no field of the record changes; from any other state, a protocol
/// violation.
pub open spec fn delegate_outcome(l: SessionLifecycle) -> Result<SessionLifecycle, AgentError> {
    if l.custody != Custody::Resident {
        Err(AgentError::ProtocolStateViolation)
    } else {
        Ok((SessionLifecycle { custody: Custody::Delegated, ..l }))
    }
}

/// Delegate the session record to the fast layer. Valid only while the
/// record is resident on the base layer; the record's content is untouched.
pub fn delegate_session(l: &mut SessionLifecycle) -> (r: Result<(), AgentError>)
    ensures
        match r {
            Ok(()) => delegate_outcome(*old(l)) == Ok::<SessionLifecycle, AgentError>(*final(l)),
            Err(e) => *final(l) == *old(l) && delegate_outcome(*old(l))
                == Err::<SessionLifecycle, AgentError>(e),
        },
{
    match l.custody {
        Custody::Resident => {
            l.custody = Custody::Delegated;
            Ok(())
        },
        Custody::Delegated => Err(AgentError::ProtocolStateViolation),
    }
}

/// Outcome of a checkpoint: the base copy becomes the live record, custody
/// does not move; from any other state, a protocol violation. Committing
/// the same state twice produces no observable difference.
pub open spec fn commit_outcome(l: SessionLifecycle) -> Result<SessionLifecycle, AgentError> {
    if l.custody != Custody::Delegated {
        Err(AgentError::ProtocolStateViolation)
    } else {
        Ok((SessionLifecycle { base_copy: l.record, ..l }))
    }
}

/// Checkpoint the current session state back to the base layer without
/// undelegating. May be called any number of times while delegated.
pub fn commit_session(l: &mut SessionLifecycle) -> (r: Result<(), AgentError>)
    ensures
        match r {
            Ok(()) => commit_outcome(*old(l)) == Ok::<SessionLifecycle, AgentError>(*final(l)),
            Err(e) => *final(l) == *old(l) && commit_outcome(*old(l))
                == Err::<SessionLifecycle, AgentError>(e),
        },
{
    match l.custody {
        Custody::Delegated => {
            l.base_copy = l.record;
            Ok(())
        },
        Custody::Resident => Err(AgentError::ProtocolStateViolation),
    }
}

/// Outcome of undelegating: the record is first deactivated, so the
/// committed terminal snapshot is unambiguously closed, then checkpointed,
/// and custody returns to the base layer; from any other state, a protocol
/// violation. One-way for the session's active life: no later action can
/// ever be authorized against the returned record.
pub open spec fn undelegate_outcome(l: SessionLifecycle) -> Result<SessionLifecycle, AgentError> {
    if l.custody != Custody::Delegated {
        Err(AgentError::ProtocolStateViolation)
    } else {
        let closed = AgentSession { is_active: false, ..l.record };
        Ok((SessionLifecycle { custody: Custody::Resident, record: closed, base_copy: closed }))
    }
}

/// Commit final state and return the record to the base layer. Deactivates
/// the session before the final checkpoint; a new session must be created
/// to resume agent activity.
pub fn undelegate_session(l: &mut SessionLifecycle) -> (r: Result<(), AgentError>)
    ensures
        match r {
            Ok(()) => undelegate_outcome(*old(l)) == Ok::<SessionLifecycle, AgentError>(*final(l)),
            Err(e) => *final(l) == *old(l) && undelegate_outcome(*old(l))
                == Err::<SessionLifecycle, AgentError>(e),
        },
{
    match l.custody {
        Custody::Delegated => {
            l.record.is_active = false;
            l.base_copy = l.record;
            l.custody = Custody::Resident;
            Ok(())
        },
        Custody::Resident => Err(AgentError::ProtocolStateViolation),
    }
}

} // verus!
