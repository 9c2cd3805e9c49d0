use vstd::prelude::*;

use crate::error::NeuralPathwayError;
use crate::pubkey::Pubkey;

verus! {

/// Refuses a pathway from an agent to itself with `InvalidAgent`.
pub fn validate_agent_pair(source_agent: &Pubkey, target_agent: &Pubkey) -> (r: Result<
    (),
    NeuralPathwayError,
>)
    ensures
        r == if source_agent@ == target_agent@ {
            Err::<(), NeuralPathwayError>(NeuralPathwayError::InvalidAgent)
        } else {
            Ok(())
        },
{
    if source_agent.same(target_agent) {
        Err(NeuralPathwayError::InvalidAgent)
    } else {
        Ok(())
    }
}

/// Turns the ledger's storage attestation into a precondition: without it a
/// new record is refused with `NotRentExempt`.
pub fn validate_storage(storage_eligible: bool) -> (r: Result<(), NeuralPathwayError>)
    ensures
        r == if storage_eligible {
            Ok::<(), NeuralPathwayError>(())
        } else {
            Err(NeuralPathwayError::NotRentExempt)
        },
{
    if storage_eligible {
        Ok(())
    } else {
        Err(NeuralPathwayError::NotRentExempt)
    }
}

} // verus!
