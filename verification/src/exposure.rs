use vstd::prelude::*;

use crate::errors::AgentError;

verus! {

/// The exposure-accounting decision as a mathematical function: the new
/// running total `spent + delta`, or `Overflow` when that sum does not fit
/// in the integer width, or `ExposureLimitExceeded` when it fits but passes
/// the cap. The overflow check comes first, so a wrapped total can never
/// slip under the cap.
pub open spec fn spend_outcome(spent: u64, cap: u64, delta: u64) -> Result<u64, AgentError> {
    if spent + delta > u64::MAX {
        Err(AgentError::Overflow)
    } else if spent + delta > cap {
        Err(AgentError::ExposureLimitExceeded)
    } else {
        Ok((spent + delta) as u64)
    }
}

/// Overflow-checked running-total tracking against the cap. Pure: it
/// mutates nothing and decides exactly as `spend_outcome` says.
pub fn checked_spend(spent: u64, cap: u64, delta: u64) -> (r: Result<u64, AgentError>)
    ensures
        r == spend_outcome(spent, cap, delta),
{
    match spent.checked_add(delta) {
        None => Err(AgentError::Overflow),
        Some(new_spent) => {
            if new_spent > cap {
                Err(AgentError::ExposureLimitExceeded)
            } else {
                Ok(new_spent)
            }
        },
    }
}

/// The delta of a composite, two-sided action: the sum of its parts,
/// overflow-checked before any comparison with the cap.
pub open spec fn combined_delta_outcome(amount_x: u64, amount_y: u64) -> Result<u64, AgentError> {
    if amount_x + amount_y > u64::MAX {
        Err(AgentError::Overflow)
    } else {
        Ok((amount_x + amount_y) as u64)
    }
}

/// Overflow-checked sum of a composite action's two sides.
pub fn combined_delta(amount_x: u64, amount_y: u64) -> (r: Result<u64, AgentError>)
    ensures
        r == combined_delta_outcome(amount_x, amount_y),
{
    match amount_x.checked_add(amount_y) {
        None => Err(AgentError::Overflow),
        Some(total) => Ok(total),
    }
}

} // verus!
